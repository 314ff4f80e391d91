//! The raw job writer: one whole print job against a spooler.
//!
//! [`write_raw`] runs the full protocol — open, begin document, begin page,
//! write, end page, end document, close — against a [`MockSpooler`] and
//! returns the transferred byte count or a classified error. Its contract
//! pins down, for every configuration of the spooler:
//!
//! - exactly which result comes back ([`expected_result`]);
//! - exactly how often each spooler call was made ([`job_counts`]), so that
//!   the handle is provably released exactly once whenever it was acquired,
//!   no step after a failed document start is attempted, and page end and
//!   document end still run after a failed write;
//! - that the document was registered under the caller's label, or under the
//!   fixed fallback label when none was given.

use vstd::prelude::*;

use crate::mock::{accepted_count, CallCounts, MockConfig, MockSpooler};
use crate::protocol::{
    initial_phase, run_phase, verdict_as_result, Phase, PrintError, StepOutcome,
};

verus! {

/// A destination name can denote a printer only when it is non-empty.
pub open spec fn valid_destination(name: Seq<char>) -> bool {
    name.len() > 0
}

/// The fallback display label used when the caller supplies none.
pub open spec fn default_document_name() -> Seq<char> {
    "RAW_Print"@
}

/// The fixed datatype marker every job is registered with: it tells the
/// spooler to pass the payload on verbatim instead of reinterpreting it as a
/// page-description or text format.
pub open spec fn raw_datatype() -> Seq<char> {
    "RAW"@
}

/// The display label a job is registered under: the caller's, or the fixed
/// fallback.
pub open spec fn chosen_document_name(document_name: Option<&str>) -> Seq<char> {
    match document_name {
        Some(n) => n@,
        None => default_document_name(),
    }
}

/// The label the job is registered under, executable form of
/// [`chosen_document_name`].
pub fn effective_document_name(document_name: Option<&str>) -> (r: String)
    ensures
        r@ == chosen_document_name(document_name),
{
    match document_name {
        Some(n) => n.to_owned(),
        None => "RAW_Print".to_owned(),
    }
}

/// A job against a spooler configured as `cfg` acquires the handle: the
/// destination name is usable and the spooler accepts it.
pub open spec fn opens_handle(cfg: MockConfig, dest: Seq<char>) -> bool {
    valid_destination(dest) && cfg.destination_exists
}

/// The job gets as far as starting the page: the handle was acquired and the
/// document was accepted.
pub open spec fn starts_page(cfg: MockConfig, dest: Seq<char>) -> bool {
    opens_handle(cfg, dest) && cfg.doc_start_ok
}

/// The job gets as far as the transfer itself: the page was accepted too.
pub open spec fn attempts_write(cfg: MockConfig, dest: Seq<char>) -> bool {
    starts_page(cfg, dest) && cfg.page_start_ok
}

/// The result one job returns, for every destination, payload length and
/// spooler configuration: the first step the configuration fails decides the
/// error, and when every step succeeds the reported byte count — at most the
/// payload length — comes back.
pub open spec fn expected_result(cfg: MockConfig, dest: Seq<char>, payload_len: nat) -> Result<
    usize,
    PrintError,
> {
    if !opens_handle(cfg, dest) {
        Err(PrintError::DestinationUnavailable)
    } else if !cfg.doc_start_ok {
        Err(PrintError::JobStartFailed)
    } else if !cfg.page_start_ok {
        Err(PrintError::PageStartFailed)
    } else if !cfg.write_ok {
        Err(PrintError::WriteFailed)
    } else {
        Ok(accepted_count(payload_len, cfg.capacity) as usize)
    }
}

/// The call counts one job leaves behind, for every destination and spooler
/// configuration. Reading it off:
///
/// - `open` is attempted exactly when the destination name is usable;
/// - `close` happens exactly as often as an open succeeded — the handle is
///   released exactly once on every path that acquired it;
/// - after a refused document start, neither `begin_page` nor `write` is
///   attempted;
/// - after a refused page start, the document is still ended;
/// - `end_page` and `end_doc` run whenever the transfer was attempted,
///   whether or not it succeeded.
pub open spec fn job_counts(c: CallCounts, cfg: MockConfig, dest: Seq<char>) -> CallCounts {
    CallCounts {
        open: (c.open + if valid_destination(dest) { 1int } else { 0int }) as u64,
        begin_doc: (c.begin_doc + if opens_handle(cfg, dest) { 1int } else { 0int }) as u64,
        begin_page: (c.begin_page + if starts_page(cfg, dest) { 1int } else { 0int }) as u64,
        write: (c.write + if attempts_write(cfg, dest) { 1int } else { 0int }) as u64,
        end_page: (c.end_page + if attempts_write(cfg, dest) { 1int } else { 0int }) as u64,
        end_doc: (c.end_doc + if starts_page(cfg, dest) { 1int } else { 0int }) as u64,
        close: (c.close + if opens_handle(cfg, dest) { 1int } else { 0int }) as u64,
    }
}

/// Run one whole raw print job against the spooler.
///
/// The payload is read, never changed; its length must fit the transfer
/// primitive's 32-bit count. The result and the spooler's counters afterwards
/// are pinned down exactly by [`expected_result`] and [`job_counts`]; the
/// spooler holds no handle afterwards, on any path.
pub fn write_raw(
    dev: &mut MockSpooler,
    destination: &str,
    payload: &[u8],
    document_name: Option<&str>,
) -> (r: Result<usize, PrintError>)
    requires
        old(dev).counts.below_max(),
        !old(dev).handle_open,
        payload@.len() <= u32::MAX,
    ensures
        r == expected_result(old(dev).config, destination@, payload@.len()),
        final(dev).counts == job_counts(old(dev).counts, old(dev).config, destination@),
        final(dev).config == old(dev).config,
        !final(dev).handle_open,
        opens_handle(old(dev).config, destination@) ==> (final(dev).last_doc_name matches Some(n)
            && n@ == chosen_document_name(document_name)),
        opens_handle(old(dev).config, destination@) ==> (final(dev).last_datatype matches Some(d)
            && d@ == raw_datatype()),
        !opens_handle(old(dev).config, destination@) ==> final(dev).last_doc_name == old(
            dev,
        ).last_doc_name && final(dev).last_datatype == old(dev).last_datatype,
{
    if destination.is_empty() {
        return Err(PrintError::DestinationUnavailable);
    }
    if !dev.open(destination) {
        return Err(PrintError::DestinationUnavailable);
    }
    let label = effective_document_name(document_name);
    let job_id = dev.begin_doc(label.as_str(), "RAW");
    if job_id == 0 {
        dev.close();
        return Err(PrintError::JobStartFailed);
    }
    if !dev.begin_page() {
        dev.end_doc();
        dev.close();
        return Err(PrintError::PageStartFailed);
    }
    let wrote = dev.write(payload);
    dev.end_page();
    dev.end_doc();
    dev.close();
    match wrote {
        Some(count) => Ok(count as usize),
        None => Err(PrintError::WriteFailed),
    }
}

/// A successful job never reports more bytes than the payload holds: for
/// every configuration, destination and payload length, an `Ok` result of
/// [`expected_result`] is a count of at most `payload_len`.
pub proof fn lemma_success_count_bounded(cfg: MockConfig, dest: Seq<char>, payload_len: nat)
    ensures
        expected_result(cfg, dest, payload_len) matches Ok(n) ==> n <= payload_len,
{
}

/// The step outcomes a spooler configured as `cfg` hands a run of the
/// protocol state machine, one per action of a complete run: whether the
/// open, document, page and write steps succeed, the count the transfer
/// reports, and the (ignored) outcomes of the three cleanup steps.
pub open spec fn spooler_outcomes(cfg: MockConfig, dest: Seq<char>, payload_len: nat) -> Seq<
    StepOutcome,
> {
    seq![
        if opens_handle(cfg, dest) {
            StepOutcome::Succeeded { count: 0 }
        } else {
            StepOutcome::Failed
        },
        if cfg.doc_start_ok {
            StepOutcome::Succeeded { count: 0 }
        } else {
            StepOutcome::Failed
        },
        if cfg.page_start_ok {
            StepOutcome::Succeeded { count: 0 }
        } else {
            StepOutcome::Failed
        },
        if cfg.write_ok {
            StepOutcome::Succeeded { count: accepted_count(payload_len, cfg.capacity) as u32 }
        } else {
            StepOutcome::Failed
        },
        StepOutcome::Succeeded { count: 0 },
        StepOutcome::Succeeded { count: 0 },
        StepOutcome::Succeeded { count: 0 },
    ]
}

/// The state machine and the writer agree: a run of the protocol from the
/// initial phase, fed the outcomes of a spooler configured as `cfg`, ends in
/// a settled phase whose verdict stands for exactly the result [`write_raw`]
/// returns against such a spooler.
pub proof fn lemma_machine_matches_writer(cfg: MockConfig, dest: Seq<char>, payload_len: nat)
    requires
        payload_len <= u32::MAX,
    ensures
        ({
            let end = run_phase(initial_phase(), spooler_outcomes(cfg, dest, payload_len));
            &&& end matches Phase::Done { verdict }
            &&& verdict_as_result(verdict) == expected_result(cfg, dest, payload_len)
        }),
{
    let outs = spooler_outcomes(cfg, dest, payload_len);
    if !opens_handle(cfg, dest) {
        crate::protocol::lemma_open_failure_run(outs);
    } else if !cfg.doc_start_ok {
        crate::protocol::lemma_doc_refusal_run(outs);
    } else if !cfg.page_start_ok {
        crate::protocol::lemma_page_refusal_run(outs);
    } else {
        crate::protocol::lemma_write_step_run(outs);
    }
}

} // verus!
