//! Driving the views through the motions a person would make, and reporting what held.
//!
//! Every check has a name. A filter runs only the checks whose name holds it, which is how a check
//! gets proved: break the thing it watches, run that one check, and see it fail.

use crate::text::{contains, glue2, glue3, glue4, no_texts, number, one_text, put_text, put_texts};
use vstd::prelude::*;
use vstd::string::*;

verus! {

/// Whether a check is to be run.
pub open spec fn is_wanted(name: Seq<char>, filter: Option<Seq<char>>) -> bool {
    match filter {
        Some(want) => crate::text::holds_text(name, want),
        None => true,
    }
}

/// Whether a check is to be run.
pub fn wanted(name: &str, filter: Option<&str>) -> (r: bool)
    ensures
        r == is_wanted(name@, crate::style::opt_str(filter)),
{
    match filter {
        Some(want) => contains(name, want),
        None => true,
    }
}

/// One checked behaviour.
pub struct Check {
    pub name: String,
    pub outcome: Result<(), String>,
    /// Filtered out rather than run. Reported separately so a filtered run can never be mistaken
    /// for a clean one.
    pub skipped: bool,
}

/// What a [`Check`] says.
pub struct CheckModel {
    pub name: Seq<char>,
    /// Why it failed, where it did.
    pub complaint: Option<Seq<char>>,
    pub skipped: bool,
}

impl View for Check {
    type V = CheckModel;

    open spec fn view(&self) -> CheckModel {
        CheckModel {
            name: self.name@,
            complaint: match self.outcome {
                Ok(_) => None,
                Err(why) => Some(why@),
            },
            skipped: self.skipped,
        }
    }
}

/// What each of some checks says.
pub open spec fn models(checks: Seq<Check>) -> Seq<CheckModel> {
    Seq::new(checks.len(), |i: int| checks[i]@)
}

impl Check {
    /// A check that was filtered out.
    pub fn skipped(name: &str) -> (r: Check)
        ensures
            r@ == (CheckModel { name: name@, complaint: None, skipped: true }),
    {
        Check { name: name.to_owned(), outcome: Ok(()), skipped: true }
    }

    /// A check that was run.
    pub fn ran(name: &str, outcome: Result<(), String>) -> (r: Check)
        ensures
            r@ == (CheckModel {
                name: name@,
                complaint: match outcome {
                    Ok(_) => None,
                    Err(why) => Some(why@),
                },
                skipped: false,
            }),
    {
        Check { name: name.to_owned(), outcome, skipped: false }
    }
}

/// A check, as it is reported: with its outcome where it was to be run, and as skipped where it
/// was not. `outcome` is what running it came to, and counts for nothing where it was skipped.
pub fn check(name: &str, filter: Option<&str>, outcome: Result<(), String>) -> (r: Check)
    ensures
        r@ == (if is_wanted(name@, crate::style::opt_str(filter)) {
            CheckModel {
                name: name@,
                complaint: match outcome {
                    Ok(_) => None,
                    Err(why) => Some(why@),
                },
                skipped: false,
            }
        } else {
            CheckModel { name: name@, complaint: None, skipped: true }
        }),
{
    if wanted(name, filter) {
        Check::ran(name, outcome)
    } else {
        Check::skipped(name)
    }
}

/// A check that panicked has failed, with what the panic said.
pub fn caught(message: Option<&str>) -> (r: Result<(), String>)
    ensures
        r is Err,
        r->Err_0@ == "panicked: "@ + (match message {
            Some(message) => message@,
            None => "panic with no message"@,
        }),
{
    match message {
        Some(message) => Err(glue2("panicked: ", message)),
        None => Err(glue2("panicked: ", "panic with no message")),
    }
}

/// Hold a condition, or complain.
pub fn expect(condition: bool, complaint: &str) -> (r: Result<(), String>)
    ensures
        r is Ok <==> condition,
        r matches Err(why) ==> why@ == complaint@,
{
    if condition {
        Ok(())
    } else {
        Err(complaint.to_owned())
    }
}

/// How many checks were run.
pub open spec fn ran_count(checks: Seq<CheckModel>) -> nat
    decreases checks.len(),
{
    if checks.len() == 0 {
        0
    } else {
        ran_count(checks.drop_last()) + (if checks.last().skipped {
            0nat
        } else {
            1
        })
    }
}

/// How many checks were run and failed.
pub open spec fn failed_count(checks: Seq<CheckModel>) -> nat
    decreases checks.len(),
{
    if checks.len() == 0 {
        0
    } else {
        failed_count(checks.drop_last()) + (if !checks.last().skipped
            && checks.last().complaint is Some {
            1nat
        } else {
            0
        })
    }
}

/// The line of a check that was run.
pub open spec fn check_line(check: CheckModel) -> Seq<char> {
    match check.complaint {
        None => "  pass  "@ + check.name,
        Some(why) => "  FAIL  "@ + check.name + "\n        "@ + why,
    }
}

/// The lines of the checks that were run.
pub open spec fn check_lines(checks: Seq<CheckModel>) -> Seq<Seq<char>>
    decreases checks.len(),
{
    if checks.len() == 0 {
        Seq::empty()
    } else {
        check_lines(checks.drop_last()) + (if checks.last().skipped {
            Seq::empty()
        } else {
            seq![check_line(checks.last())]
        })
    }
}

/// How many checks were filtered out, where any were.
pub open spec fn skipped_lines(checks: Seq<CheckModel>) -> Seq<Seq<char>> {
    let skipped = (checks.len() - ran_count(checks)) as nat;
    if skipped > 0 {
        seq!["\n"@ + crate::text::decimal(skipped) + " skipped by the filter."@]
    } else {
        Seq::empty()
    }
}

/// Whether everything that was run held.
pub open spec fn verdict_line(checks: Seq<CheckModel>) -> Seq<char> {
    let failed = failed_count(checks);
    if failed == 0 {
        "\nEverything held."@
    } else {
        "\n"@ + crate::text::decimal(failed) + " of "@ + crate::text::decimal(ran_count(checks))
            + " failed."@
    }
}

/// What held, in words.
pub open spec fn report_lines(checks: Seq<CheckModel>) -> Seq<Seq<char>> {
    seq!["Self-test — "@ + crate::text::decimal(ran_count(checks)) + " checks"@] + check_lines(
        checks,
    ) + skipped_lines(checks) + seq![verdict_line(checks)]
}

/// No more checks were run than there are, and no more failed than were run.
proof fn counts_are_bounded(checks: Seq<CheckModel>)
    ensures
        failed_count(checks) <= ran_count(checks) <= checks.len(),
        check_lines(checks).len() == ran_count(checks),
    decreases checks.len(),
{
    if checks.len() > 0 {
        counts_are_bounded(checks.drop_last());
    }
}

/// A filtered run is never mistaken for a clean one: where a check was filtered out, the report
/// says how many were; and every check is either run or counted as filtered out.
pub proof fn a_filtered_run_is_not_a_clean_one(checks: Seq<CheckModel>, at: int)
    requires
        0 <= at < checks.len(),
        checks[at].skipped,
    ensures
        skipped_lines(checks).len() == 1,
        report_lines(checks).contains(skipped_lines(checks)[0]),
        report_lines(checks).len() == 1 + ran_count(checks) + 2,
{
    one_less_was_run(checks, at);
    counts_are_bounded(checks);
    let before = seq!["Self-test — "@ + crate::text::decimal(ran_count(checks)) + " checks"@]
        + check_lines(checks);
    assert(report_lines(checks)[before.len() as int] == skipped_lines(checks)[0]);
}

/// Where a check was filtered out, fewer were run than there are.
proof fn one_less_was_run(checks: Seq<CheckModel>, at: int)
    requires
        0 <= at < checks.len(),
        checks[at].skipped,
    ensures
        ran_count(checks) < checks.len(),
    decreases checks.len(),
{
    counts_are_bounded(checks.drop_last());
    if at < checks.len() - 1 {
        one_less_was_run(checks.drop_last(), at);
    }
}

/// One check that was run and failed spoils the run, and nothing else does.
pub proof fn one_failure_spoils_the_run(checks: Seq<CheckModel>)
    ensures
        failed_count(checks) == 0 <==> (forall|i: int|
            0 <= i < checks.len() ==> (#[trigger] checks[i]).skipped || checks[i].complaint is None),
    decreases checks.len(),
{
    if checks.len() > 0 {
        let rest = checks.drop_last();
        one_failure_spoils_the_run(rest);
        if failed_count(checks) == 0 {
            assert forall|i: int| 0 <= i < checks.len() implies (#[trigger] checks[i]).skipped
                || checks[i].complaint is None by {
                if i < rest.len() {
                    assert(rest[i] == checks[i]);
                }
            }
        }
        if forall|i: int|
            0 <= i < checks.len() ==> (#[trigger] checks[i]).skipped || checks[i].complaint
                is None {
            assert forall|i: int| 0 <= i < rest.len() implies (#[trigger] rest[i]).skipped
                || rest[i].complaint is None by {
                assert(rest[i] == checks[i]);
            }
            assert(checks[checks.len() - 1].skipped || checks[checks.len() - 1].complaint is None);
        }
    }
}

/// Every check that was run has its line, in the order in which they were run: as passed exactly where
/// it has no complaint, and with its complaint otherwise. The last line says that everything held
/// exactly where nothing failed, and how many failed of how many otherwise.
pub proof fn every_check_that_ran_is_told(checks: Seq<CheckModel>, next: CheckModel)
    ensures
        next.skipped ==> check_lines(checks.push(next)) == check_lines(checks),
        !next.skipped && next.complaint is None ==> check_lines(checks.push(next)) == check_lines(
            checks,
        ).push("  pass  "@ + next.name),
        !next.skipped ==> (next.complaint matches Some(why) ==> check_lines(checks.push(next))
            == check_lines(checks).push("  FAIL  "@ + next.name + "\n        "@ + why)),
        report_lines(checks).last() == "\nEverything held."@ <==> (forall|i: int|
            0 <= i < checks.len() ==> (#[trigger] checks[i]).skipped || checks[i].complaint is None),
        ran_count(checks.push(next)) == ran_count(checks) + (if next.skipped {
            0int
        } else {
            1
        }),
        failed_count(checks.push(next)) == failed_count(checks) + (if !next.skipped
            && next.complaint is Some {
            1int
        } else {
            0
        }),
        failed_count(Seq::empty()) == 0,
{
    assert(checks.push(next).drop_last() =~= checks);
    let before = check_lines(checks);
    if next.skipped {
        assert(before + Seq::<Seq<char>>::empty() =~= before);
    } else {
        assert(before + seq![check_line(next)] =~= before.push(check_line(next)));
    }
    one_failure_spoils_the_run(checks);
    reveal_strlit("\nEverything held.");
    reveal_strlit("\n");
    if failed_count(checks) > 0 {
        let line = verdict_line(checks);
        crate::text::a_number_begins_with_a_digit(failed_count(checks));
        assert(line[1] == crate::text::decimal(failed_count(checks))[0]);
        assert("\nEverything held."@[1] == 'E');
    }
}

/// A check is run exactly where no filter is set or its name holds the filter.
pub proof fn a_filter_picks_by_name(name: Seq<char>, want: Seq<char>, before: Seq<char>, behind: Seq<char>)
    ensures
        is_wanted(name, None),
        is_wanted(before + want + behind, Some(want)),
        is_wanted(name, Some(want)) ==> want.len() <= name.len(),
{
    let whole = before + want + behind;
    assert(whole.subrange(before.len() as int, before.len() as int + want.len()) =~= want);
    assert(crate::text::stands_at(whole, want, before.len() as int));
}

/// How many checks were run, how many of them failed, and the lines of those that were run.
fn tally(checks: &Vec<Check>) -> (r: (usize, usize, Vec<String>))
    ensures
        r.0 == ran_count(models(checks@)),
        r.1 == failed_count(models(checks@)),
        crate::text::texts(r.2@) == check_lines(models(checks@)),
{
    let ghost all = models(checks@);
    let mut ran: usize = 0;
    let mut failed: usize = 0;
    let mut lines = no_texts();
    let mut i: usize = 0;
    assert(all.take(0) =~= Seq::empty());
    while i < checks.len()
        invariant
            i <= checks.len(),
            all == models(checks@),
            ran <= i,
            failed <= i,
            ran == ran_count(all.take(i as int)),
            failed == failed_count(all.take(i as int)),
            crate::text::texts(lines@) == check_lines(all.take(i as int)),
        decreases checks.len() - i,
    {
        let check = &checks[i];
        let ghost before = crate::text::texts(lines@);
        assert(all.take(i + 1).drop_last() =~= all.take(i as int));
        assert(all.take(i + 1).last() == check@);
        if !check.skipped {
            ran += 1;
            match &check.outcome {
                Ok(_) => {
                    put_text(&mut lines, glue2("  pass  ", check.name.as_str()));
                },
                Err(why) => {
                    failed += 1;
                    put_text(
                        &mut lines,
                        glue4("  FAIL  ", check.name.as_str(), "\n        ", why.as_str()),
                    );
                },
            }
            assert(crate::text::texts(lines@) =~= before + seq![check_line(check@)]);
        } else {
            assert(before =~= before + Seq::<Seq<char>>::empty());
        }
        i += 1;
    }
    assert(all.take(i as int) =~= all);
    (ran, failed, lines)
}

/// What held, in words, and whether everything that was run did.
pub fn report(checks: &Vec<Check>) -> (r: (Vec<String>, bool))
    ensures
        crate::text::texts(r.0@) == report_lines(models(checks@)),
        r.1 == (failed_count(models(checks@)) == 0),
{
    let (ran, failed, entries) = tally(checks);
    proof {
        counts_are_bounded(models(checks@));
    }
    let skipped = checks.len() - ran;
    let mut lines = one_text(glue3("Self-test — ", number(ran as u64).as_str(), " checks"));
    put_texts(&mut lines, entries);
    let ghost before = crate::text::texts(lines@);
    if skipped > 0 {
        put_text(
            &mut lines,
            glue3("\n", number(skipped as u64).as_str(), " skipped by the filter."),
        );
    }
    assert(crate::text::texts(lines@) =~= before + skipped_lines(models(checks@)));
    let verdict = if failed == 0 {
        "\nEverything held.".to_owned()
    } else {
        let mut text = glue4(
            "\n",
            number(failed as u64).as_str(),
            " of ",
            number(ran as u64).as_str(),
        );
        text.append(" failed.");
        text
    };
    put_texts(&mut lines, one_text(verdict));
    (lines, failed == 0)
}

} // verus!
