//! The environment that restic is started in.
use vstd::prelude::*;

verus! {

/// One change of an environment that starts empty.
#[allow(inconsistent_fields)]
#[derive(Debug, PartialEq, Eq)]
pub enum Assignment {
    /// The variable is as the service has it, where the service has it.
    Inherit { name: &'static str },
    Give { name: String, value: String },
}

impl Assignment {
    pub open spec fn inherits(self, name: Seq<char>) -> bool {
        self matches Assignment::Inherit { name: inherited } && inherited@ == name
    }

    pub open spec fn gives(self, name: Seq<char>, value: Seq<char>) -> bool {
        self matches Assignment::Give { name: given, value: text } && given@ == name && text@
            == value
    }

    /// The variable that changes.
    pub open spec fn changes(self) -> Seq<char> {
        match self {
            Assignment::Inherit { name } => name@,
            Assignment::Give { name, .. } => name@,
        }
    }
}

/// What restic needs to know of the machine.
pub open spec fn inherited_variables() -> Seq<Seq<char>> {
    seq![
        "SystemRoot"@,
        "TEMP"@,
        "TMP"@,
        "LOCALAPPDATA"@,
        "APPDATA"@,
        "USERPROFILE"@,
    ]
}

/// Each of `assignments` gives the variable of `given` at its place.
pub open spec fn give_all(assignments: Seq<Assignment>, given: Seq<(String, String)>) -> bool {
    &&& assignments.len() == given.len()
    &&& forall|i: int|
        0 <= i < given.len() ==> (#[trigger] assignments[i]).gives(given[i].0@, given[i].1@)
}

/// The machine's variables, then those of the command, then the pace of the
/// progress reports, then the credentials, and the cache at the very end.
pub open spec fn is_child_environment(
    plan: Seq<Assignment>,
    environment: Seq<(String, String)>,
    secrets: Seq<(String, String)>,
    cache_directory: Seq<char>,
) -> bool {
    let first_given = inherited_variables().len() as int;
    let pace = first_given + environment.len();
    let last = pace + 1 + secrets.len();
    &&& plan.len() == last + 1
    &&& forall|i: int|
        0 <= i < first_given ==> (#[trigger] plan[i]).inherits(inherited_variables()[i])
    &&& give_all(plan.subrange(first_given, pace), environment)
    &&& plan[pace].gives("RESTIC_PROGRESS_FPS"@, "1"@)
    &&& give_all(plan.subrange(pace + 1, last), secrets)
    &&& plan[last].gives("RESTIC_CACHE_DIR"@, cache_directory)
}

/// Adds what is given to a plan.
fn give_each(plan: &mut Vec<Assignment>, given: &Vec<(String, String)>)
    ensures
        final(plan)@.len() == old(plan)@.len() + given@.len(),
        final(plan)@.take(old(plan)@.len() as int) == old(plan)@,
        give_all(final(plan)@.skip(old(plan)@.len() as int), given@),
{
    let ghost before = plan@;
    let mut i: usize = 0;
    while i < given.len()
        invariant
            i <= given@.len(),
            plan@.len() == before.len() + i,
            plan@.take(before.len() as int) == before,
            forall|j: int|
                0 <= j < i ==> (#[trigger] plan@[before.len() + j]).gives(
                    given@[j].0@,
                    given@[j].1@,
                ),
        decreases given@.len() - i,
    {
        let ghost earlier = plan@;
        plan.push(Assignment::Give { name: given[i].0.clone(), value: given[i].1.clone() });
        proof {
            assert(plan@.take(before.len() as int) == earlier.take(before.len() as int));
            assert forall|j: int| 0 <= j < i + 1 implies (#[trigger] plan@[before.len() + j]).gives(
                given@[j].0@,
                given@[j].1@,
            ) by {
                if j < i {
                    assert(plan@[before.len() + j] == earlier[before.len() + j]);
                }
            }
        }
        i = i + 1;
    }
    proof {
        let added = plan@.skip(before.len() as int);
        assert forall|j: int| 0 <= j < given@.len() implies (#[trigger] added[j]).gives(
            given@[j].0@,
            given@[j].1@,
        ) by {
            assert(added[j] == plan@[before.len() + j]);
        }
    }
}

/// The changes, in their order, that make the environment of a command. The
/// cache stands last, so that nothing that was configured moves it out of the
/// directory of the service.
pub fn child_environment(
    environment: &Vec<(String, String)>,
    secrets: &Vec<(String, String)>,
    cache_directory: &str,
) -> (plan: Vec<Assignment>)
    ensures
        is_child_environment(plan@, environment@, secrets@, cache_directory@),
{
    let mut plan: Vec<Assignment> = vec![
        Assignment::Inherit { name: "SystemRoot" },
        Assignment::Inherit { name: "TEMP" },
        Assignment::Inherit { name: "TMP" },
        Assignment::Inherit { name: "LOCALAPPDATA" },
        Assignment::Inherit { name: "APPDATA" },
        Assignment::Inherit { name: "USERPROFILE" },
    ];
    let ghost inherited = plan@;
    give_each(&mut plan, environment);
    let ghost given = plan@;
    plan.push(
        Assignment::Give { name: "RESTIC_PROGRESS_FPS".to_owned(), value: "1".to_owned() },
    );
    let ghost paced = plan@;
    give_each(&mut plan, secrets);
    let ghost revealed = plan@;
    plan.push(
        Assignment::Give {
            name: "RESTIC_CACHE_DIR".to_owned(),
            value: cache_directory.to_owned(),
        },
    );
    proof {
        let pace = inherited.len() as int + environment@.len();
        let last: int = pace + 1 + secrets@.len();
        assert(revealed.take(paced.len() as int) == paced);
        assert(given.take(inherited.len() as int) == inherited);
        assert forall|i: int| 0 <= i < inherited.len() implies (#[trigger] plan@[i]).inherits(
            inherited_variables()[i],
        ) by {
            assert(plan@[i] == revealed.take(paced.len() as int)[i]);
            assert(paced[i] == given.take(inherited.len() as int)[i]);
        }
        assert(plan@.subrange(inherited.len() as int, pace) == given.skip(inherited.len() as int))
            by {
            assert forall|i: int| inherited.len() <= i < pace implies plan@[i] == given[i] by {
                assert(plan@[i] == revealed.take(paced.len() as int)[i]);
            }
        }
        assert(plan@[pace] == revealed.take(paced.len() as int)[pace]);
        assert(plan@.subrange(pace + 1, last) == revealed.skip(paced.len() as int));
    }
    plan
}

/// The value of a variable after the changes: the last change of it counts.
/// `machine` is the environment of the service, and `same` tells which spellings
/// name one variable.
pub open spec fn value_after(
    plan: Seq<Assignment>,
    machine: spec_fn(Seq<char>) -> Option<Seq<char>>,
    same: spec_fn(Seq<char>, Seq<char>) -> bool,
    name: Seq<char>,
) -> Option<Seq<char>>
    decreases plan.len(),
{
    if plan.len() == 0 {
        None
    } else {
        let before = value_after(plan.drop_last(), machine, same, name);
        match plan.last() {
            Assignment::Give { name: given, value } => if same(given@, name) {
                Some(value@)
            } else {
                before
            },
            Assignment::Inherit { name: inherited } => if same(inherited@, name)
                && machine(inherited@) is Some {
                machine(inherited@)
            } else {
                before
            },
        }
    }
}

/// Under every spelling, the cache is where the service wants it, whatever was
/// configured for the command.
pub proof fn the_cache_is_never_redirected(
    plan: Seq<Assignment>,
    environment: Seq<(String, String)>,
    secrets: Seq<(String, String)>,
    cache_directory: Seq<char>,
    machine: spec_fn(Seq<char>) -> Option<Seq<char>>,
    same: spec_fn(Seq<char>, Seq<char>) -> bool,
    name: Seq<char>,
)
    requires
        is_child_environment(plan, environment, secrets, cache_directory),
        same("RESTIC_CACHE_DIR"@, name),
    ensures
        value_after(plan, machine, same, name) == Some(cache_directory),
{
}

/// A variable that no change names is not there, whatever the machine has.
pub proof fn only_named_variables_are_set(
    plan: Seq<Assignment>,
    machine: spec_fn(Seq<char>) -> Option<Seq<char>>,
    same: spec_fn(Seq<char>, Seq<char>) -> bool,
    name: Seq<char>,
)
    requires
        forall|i: int| 0 <= i < plan.len() ==> !same((#[trigger] plan[i]).changes(), name),
    ensures
        value_after(plan, machine, same, name) is None,
    decreases plan.len(),
{
    if plan.len() > 0 {
        let shorter = plan.drop_last();
        assert forall|i: int| 0 <= i < shorter.len() implies !same(
            (#[trigger] shorter[i]).changes(),
            name,
        ) by {
            assert(shorter[i] == plan[i]);
        }
        only_named_variables_are_set(shorter, machine, same, name);
        assert(!same(plan[plan.len() - 1].changes(), name));
    }
}

} // verus!
