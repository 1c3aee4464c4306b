//! Selecting a scenario by label and phrasing per-file report lines.

use crate::config::Scenario;
use crate::config::ScenarioView;
use vstd::prelude::*;
use vstd::string::StringExecFns;

verus! {

/// Outcome of processing one fixture file: the read failed, the read
/// succeeded and the POST was delivered, or the read succeeded but the
/// POST failed at the transport level.
#[derive(Clone, Copy, PartialEq, Eq, Structural, Debug)]
pub enum FileOutcome {
    ReadFailed,
    Posted,
    PostFailed,
}

/// The report line printed for one fixture file, by outcome.
pub open spec fn outcome_line_spec(file: Seq<char>, outcome: FileOutcome) -> Seq<char> {
    match outcome {
        FileOutcome::ReadFailed => "Couldn't read file: "@ + file,
        FileOutcome::Posted => "Successfully POSTed file: "@ + file,
        FileOutcome::PostFailed => "Error while POSTing fixture:, "@ + file,
    }
}

/// Build the report line for one fixture file.
pub fn outcome_line(file: &String, outcome: FileOutcome) -> (r: String)
    ensures
        r@ == outcome_line_spec(file@, outcome),
{
    let mut r = match outcome {
        FileOutcome::ReadFailed => String::from_str("Couldn't read file: "),
        FileOutcome::Posted => String::from_str("Successfully POSTed file: "),
        FileOutcome::PostFailed => String::from_str("Error while POSTing fixture:, "),
    };
    r.append(file.as_str());
    r
}

/// The line printed when the requested scenario label is not in the set.
pub fn missing_scenario_line() -> (r: String)
    ensures
        r@ == "Non-existing scenario!"@,
{
    String::from_str("Non-existing scenario!")
}

/// The first scenario carrying `label`, if any.
pub open spec fn selected(ss: Seq<ScenarioView>, label: Seq<char>) -> Option<ScenarioView>
    decreases ss.len(),
{
    if ss.len() == 0 {
        Option::None
    } else if ss[0].label == label {
        Option::Some(ss[0])
    } else {
        selected(ss.drop_first(), label)
    }
}

/// Select the first scenario of `scenarios[i..]` carrying `label`.
fn select_from<'a>(scenarios: &'a Vec<Scenario>, i: usize, label: &String) -> (r: Option<
    &'a Scenario,
>)
    requires
        i <= scenarios.len(),
    ensures
        match r {
            Option::Some(s) => selected(scenarios.deep_view().skip(i as int), label@)
                == Option::Some(s@),
            Option::None => selected(scenarios.deep_view().skip(i as int), label@) is None,
        },
    decreases scenarios.len() - i,
{
    if i == scenarios.len() {
        assert(scenarios.deep_view().skip(i as int) =~= Seq::<ScenarioView>::empty());
        Option::None
    } else {
        assert(scenarios.deep_view().skip(i as int)[0] == scenarios.deep_view()[i as int]);
        assert(scenarios.deep_view().skip(i as int).drop_first()
            =~= scenarios.deep_view().skip(i as int + 1));
        if scenarios[i].label == *label {
            Option::Some(&scenarios[i])
        } else {
            select_from(scenarios, i + 1, label)
        }
    }
}

/// Resolve the scenario to run: the first whose label equals the request
/// exactly (case-sensitive); `None` exactly when no label matches.
pub fn select_scenario<'a>(scenarios: &'a Vec<Scenario>, label: &String) -> (r: Option<
    &'a Scenario,
>)
    ensures
        match r {
            Option::Some(s) => selected(scenarios.deep_view(), label@) == Option::Some(s@),
            Option::None => selected(scenarios.deep_view(), label@) is None,
        },
{
    let r = select_from(scenarios, 0, label);
    assert(scenarios.deep_view().skip(0) =~= scenarios.deep_view());
    r
}

/// A lookup misses exactly when no scenario in the set carries the label:
/// the "Non-existing scenario!" path is taken only then, and then no file
/// is touched.
pub proof fn lemma_selected_none(ss: Seq<ScenarioView>, label: Seq<char>)
    ensures
        selected(ss, label) is None <==> (forall|i: int|
            0 <= i < ss.len() ==> (#[trigger] ss[i]).label != label),
    decreases ss.len(),
{
    if ss.len() > 0 {
        lemma_selected_none(ss.drop_first(), label);
        if ss[0].label == label {
            // both sides are false: index 0 is a matching label
        } else if selected(ss.drop_first(), label) is None {
            assert forall|i: int| 0 <= i < ss.len() implies (#[trigger] ss[i]).label
                != label by {
                if i > 0 {
                    assert(ss.drop_first()[i - 1] == ss[i]);
                }
            }
        } else {
            assert(exists|j: int|
                0 <= j < ss.drop_first().len() && (#[trigger] ss.drop_first()[j]).label == label);
            let j = choose|j: int|
                0 <= j < ss.drop_first().len() && (#[trigger] ss.drop_first()[j]).label == label;
            assert(ss[j + 1] == ss.drop_first()[j]);
            assert(0 <= j + 1 < ss.len() && ss[j + 1].label == label);
        }
    }
}

/// Decide the next step for one file once its read attempt has finished:
/// a successful read hands the content on to the POST, and a failed read
/// yields the report line instead, so no call is made for it.
pub fn after_read(file: &String, content: Option<String>) -> (r: Result<String, String>)
    ensures
        match content {
            Option::Some(c) => r == Result::<String, String>::Ok(c),
            Option::None => r matches Result::Err(m) && m@ == outcome_line_spec(
                file@,
                FileOutcome::ReadFailed,
            ),
        },
{
    match content {
        Option::Some(c) => Result::Ok(c),
        Option::None => Result::Err(outcome_line(file, FileOutcome::ReadFailed)),
    }
}

/// The report lines of a run: line `i` reports file `i` under outcome
/// `i`.
pub open spec fn report_lines_spec(files: Seq<Seq<char>>, outcomes: Seq<FileOutcome>) -> Seq<
    Seq<char>,
> {
    Seq::new(files.len(), |i: int| outcome_line_spec(files[i], outcomes[i]))
}

/// Build every report line of a run, one per file in file order; one
/// file's outcome never changes another file's line.
pub fn report_lines(files: &Vec<String>, outcomes: &Vec<FileOutcome>) -> (r: Vec<String>)
    requires
        files@.len() == outcomes@.len(),
    ensures
        r.deep_view() == report_lines_spec(files.deep_view(), outcomes@),
{
    let mut r: Vec<String> = Vec::new();
    let mut i: usize = 0;
    while i < files.len()
        invariant
            i <= files.len(),
            files@.len() == outcomes@.len(),
            r@.len() == i,
            forall|j: int|
                0 <= j < i ==> r.deep_view()[j] == outcome_line_spec(
                    files.deep_view()[j],
                    outcomes@[j],
                ),
        decreases files.len() - i,
    {
        let line = outcome_line(&files[i], outcomes[i]);
        let ghost prev = r.deep_view();
        r.push(line);
        proof {
            assert forall|j: int|
                0 <= j < i + 1 implies r.deep_view()[j] == outcome_line_spec(
                files.deep_view()[j],
                outcomes@[j],
            ) by {
                if j < i {
                    assert(r.deep_view()[j] == prev[j]);
                } else {
                    assert(r.deep_view()[j] == line@);
                }
            }
        }
        i = i + 1;
    }
    assert(r.deep_view() =~= report_lines_spec(files.deep_view(), outcomes@));
    r
}

} // verus!
