//! Rendering: the per-check console line and the JSON report.
//!
//! The JSON report is an array of objects with fields `url` (string),
//! `status` (number on success, string on failure), `time_ms` (integer
//! milliseconds) and `timestamp` (integer seconds since the epoch).
//! Writing the text out is left to the caller.

use vstd::prelude::*;
use vstd::string::StringExecFns;
use crate::collector::record_models;
use crate::numbers::{append_dec, dec_spec};
use crate::outcome::{OutcomeModel, ProbeOutcome};
use crate::record::{CheckRecord, RecordModel};

verus! {

/// The status text of an outcome: the decimal status code, or the fault
/// message as it stands.
pub open spec fn status_text(o: OutcomeModel) -> Seq<char> {
    match o {
        OutcomeModel::Success(code) => dec_spec(code as nat),
        OutcomeModel::Failure(msg) => msg,
    }
}

/// The immediate console line of one finished check:
/// `<url> - <status-or-error> - <elapsed>ms`.
pub open spec fn status_line(r: RecordModel) -> Seq<char> {
    r.url + " - "@ + status_text(r.outcome) + " - "@ + dec_spec(r.elapsed_ms as nat) + "ms"@
}

/// The JSON value of the `status` field: the bare code on success, the
/// quoted message on failure.
pub open spec fn status_json(o: OutcomeModel) -> Seq<char> {
    match o {
        OutcomeModel::Success(code) => dec_spec(code as nat),
        OutcomeModel::Failure(msg) => "\""@ + msg + "\""@,
    }
}

/// The JSON object of one record.
pub open spec fn record_json(r: RecordModel) -> Seq<char> {
    "  { \"url\": \""@ + r.url + "\", \"status\": "@ + status_json(r.outcome) + ", \"time_ms\": "@
        + dec_spec(r.elapsed_ms as nat) + ", \"timestamp\": "@ + dec_spec(r.timestamp_secs as nat)
        + " }"@
}

/// The record objects joined with `,\n`, in the order given.
pub open spec fn records_json(rs: Seq<RecordModel>) -> Seq<char>
    decreases rs.len(),
{
    if rs.len() == 0 {
        Seq::empty()
    } else if rs.len() == 1 {
        record_json(rs[0])
    } else {
        records_json(rs.drop_last()) + ",\n"@ + record_json(rs.last())
    }
}

/// The whole report: the records as a JSON array.
pub open spec fn report_json(rs: Seq<RecordModel>) -> Seq<char> {
    "[\n"@ + records_json(rs) + "\n]\n"@
}

/// Appends the status text of the outcome.
fn append_status_text(out: &mut String, o: &ProbeOutcome)
    ensures
        final(out)@ == old(out)@ + status_text(o@),
{
    match o {
        ProbeOutcome::Success(code) => {
            append_dec(out, *code as u64);
        },
        ProbeOutcome::Failure(msg) => {
            out.append(msg.as_str());
        },
    }
}

/// Builds the console line of one finished check.
pub fn render_status_line(r: &CheckRecord) -> (s: String)
    ensures
        s@ == status_line(r@),
{
    let mut s = String::new();
    s.append(r.url.as_str());
    s.append(" - ");
    append_status_text(&mut s, &r.outcome);
    s.append(" - ");
    append_dec(&mut s, r.elapsed_ms);
    s.append("ms");
    proof {
        assert(s@ =~= status_line(r@));
    }
    s
}

/// Appends the JSON `status` value of the outcome.
fn append_status_json(out: &mut String, o: &ProbeOutcome)
    ensures
        final(out)@ == old(out)@ + status_json(o@),
{
    match o {
        ProbeOutcome::Success(code) => {
            append_dec(out, *code as u64);
        },
        ProbeOutcome::Failure(msg) => {
            out.append("\"");
            out.append(msg.as_str());
            out.append("\"");
            proof {
                assert(out@ =~= old(out)@ + status_json(o@));
            }
        },
    }
}

/// Appends the JSON object of one record.
fn append_record_json(out: &mut String, r: &CheckRecord)
    ensures
        final(out)@ == old(out)@ + record_json(r@),
{
    out.append("  { \"url\": \"");
    out.append(r.url.as_str());
    out.append("\", \"status\": ");
    append_status_json(out, &r.outcome);
    out.append(", \"time_ms\": ");
    append_dec(out, r.elapsed_ms);
    out.append(", \"timestamp\": ");
    append_dec(out, r.timestamp_secs);
    out.append(" }");
    proof {
        assert(out@ =~= old(out)@ + record_json(r@));
    }
}

/// Builds the whole JSON report over the records, in the order they
/// arrived.
pub fn render_report(records: &Vec<CheckRecord>) -> (s: String)
    ensures
        s@ == report_json(record_models(records@)),
{
    let ghost m = record_models(records@);
    let mut s = String::new();
    s.append("[\n");
    let mut i: usize = 0;
    proof {
        assert(s@ =~= "[\n"@ + records_json(m.take(0)));
    }
    while i < records.len()
        invariant
            0 <= i <= records.len(),
            m == record_models(records@),
            s@ == "[\n"@ + records_json(m.take(i as int)),
        decreases records.len() - i,
    {
        proof {
            assert(m.take(i + 1).drop_last() =~= m.take(i as int));
            assert(m.take(i + 1).last() == m[i as int]);
        }
        if i > 0 {
            s.append(",\n");
        }
        append_record_json(&mut s, &records[i]);
        proof {
            if i == 0 {
                assert(m.take(1) =~= seq![m[0]]);
                assert(s@ =~= "[\n"@ + records_json(m.take(1)));
            } else {
                assert(s@ =~= "[\n"@ + records_json(m.take(i + 1)));
            }
        }
        i = i + 1;
    }
    s.append("\n]\n");
    proof {
        assert(m.take(records@.len() as int) =~= m);
        assert(s@ =~= report_json(m));
    }
    s
}

} // verus!
