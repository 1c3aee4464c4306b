//! Formatting the scenario listing.

use crate::config::Scenario;
use crate::config::ScenarioView;
use vstd::prelude::*;
use vstd::string::StringExecFns;

verus! {

/// The file paths joined with newline separators, in order.
pub open spec fn joined_files(files: Seq<Seq<char>>) -> Seq<char>
    decreases files.len(),
{
    if files.len() == 0 {
        Seq::<char>::empty()
    } else if files.len() == 1 {
        files[0]
    } else {
        files[0] + "\n"@ + joined_files(files.drop_first())
    }
}

/// One printed scenario block: the label line, a `FILES:` line, the
/// joined paths, and a blank separator line.
pub open spec fn scenario_block(s: ScenarioView) -> Seq<char> {
    "NAME: "@ + s.label + "\nFILES:\n"@ + joined_files(s.files) + "\n\n"@
}

/// The whole listing: the blocks in input order and nothing else; an
/// empty scenario set yields the empty text.
pub open spec fn list_text(ss: Seq<ScenarioView>) -> Seq<char>
    decreases ss.len(),
{
    if ss.len() == 0 {
        Seq::<char>::empty()
    } else {
        scenario_block(ss[0]) + list_text(ss.drop_first())
    }
}

/// Join `files[i..]` with newline separators.
fn join_from(files: &Vec<String>, i: usize) -> (r: String)
    requires
        i <= files.len(),
    ensures
        r@ == joined_files(files.deep_view().skip(i as int)),
    decreases files.len() - i,
{
    if i == files.len() {
        assert(files.deep_view().skip(i as int) =~= Seq::<Seq<char>>::empty());
        String::new()
    } else if i + 1 == files.len() {
        assert(files.deep_view().skip(i as int) =~= seq![files.deep_view()[i as int]]);
        files[i].clone()
    } else {
        let mut r = files[i].clone();
        r.append("\n");
        let rest = join_from(files, i + 1);
        r.append(rest.as_str());
        assert(files.deep_view().skip(i as int).drop_first()
            =~= files.deep_view().skip(i as int + 1));
        assert(files.deep_view().skip(i as int)[0] == files.deep_view()[i as int]);
        r
    }
}

/// One scenario's block of the listing.
fn block_of(s: &Scenario) -> (r: String)
    ensures
        r@ == scenario_block(s@),
{
    let mut r = String::from_str("NAME: ");
    r.append(s.label.as_str());
    r.append("\nFILES:\n");
    let joined = join_from(&s.files, 0);
    assert(s.files.deep_view().skip(0) =~= s.files.deep_view());
    r.append(joined.as_str());
    r.append("\n\n");
    r
}

/// The listing text of `scenarios[i..]`.
fn list_from(scenarios: &Vec<Scenario>, i: usize) -> (r: String)
    requires
        i <= scenarios.len(),
    ensures
        r@ == list_text(scenarios.deep_view().skip(i as int)),
    decreases scenarios.len() - i,
{
    if i == scenarios.len() {
        assert(scenarios.deep_view().skip(i as int) =~= Seq::<ScenarioView>::empty());
        String::new()
    } else {
        let mut r = block_of(&scenarios[i]);
        let rest = list_from(scenarios, i + 1);
        r.append(rest.as_str());
        assert(scenarios.deep_view().skip(i as int).drop_first()
            =~= scenarios.deep_view().skip(i as int + 1));
        assert(scenarios.deep_view().skip(i as int)[0] == scenarios.deep_view()[i as int]);
        r
    }
}

/// Format the listing of all scenarios, in input order.
pub fn show_list(scenarios: &Vec<Scenario>) -> (r: String)
    ensures
        r@ == list_text(scenarios.deep_view()),
{
    let r = list_from(scenarios, 0);
    assert(scenarios.deep_view().skip(0) =~= scenarios.deep_view());
    r
}

/// The listing is a function of the scenario set alone: two outputs
/// formatted from the same set are identical.
pub proof fn lemma_list_deterministic(ss: Seq<ScenarioView>, r1: Seq<char>, r2: Seq<char>)
    requires
        r1 == list_text(ss),
        r2 == list_text(ss),
    ensures
        r1 == r2,
{
}

} // verus!
