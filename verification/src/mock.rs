//! A verified stand-in for the platform spooler.
//!
//! [`MockSpooler`] answers the same calls the real spooler does — open,
//! begin document, begin page, write, end page, end document, close — with
//! outcomes fixed by its configuration, and counts every call it receives.
//! The counts make resource discipline observable: a driver that opens the
//! handle must be seen to close it exactly once, whatever else failed.

use vstd::prelude::*;

verus! {

/// Fixed behaviour of a [`MockSpooler`]: which steps succeed, and how many
/// bytes one transfer accepts.
#[derive(Clone, Copy, Debug, PartialEq, Eq, Structural)]
pub struct MockConfig {
    /// Opening the destination succeeds.
    pub destination_exists: bool,
    /// Registering a document on the open handle succeeds.
    pub doc_start_ok: bool,
    /// Starting the page succeeds.
    pub page_start_ok: bool,
    /// The payload transfer succeeds.
    pub write_ok: bool,
    /// Ending the page succeeds; a refusal here is best-effort territory.
    pub end_page_ok: bool,
    /// Ending the document succeeds; likewise best-effort.
    pub end_doc_ok: bool,
    /// How many bytes one transfer accepts; a shorter payload is taken
    /// whole, a longer one is cut short at this count.
    pub capacity: u32,
}

/// How often each call of the spooler interface has been received.
#[derive(Clone, Copy, Debug, PartialEq, Eq, Structural)]
pub struct CallCounts {
    pub open: u64,
    pub begin_doc: u64,
    pub begin_page: u64,
    pub write: u64,
    pub end_page: u64,
    pub end_doc: u64,
    pub close: u64,
}

impl CallCounts {
    /// No call received yet.
    pub open spec fn zero() -> CallCounts {
        CallCounts { open: 0, begin_doc: 0, begin_page: 0, write: 0, end_page: 0, end_doc: 0, close: 0 }
    }

    /// Every counter has room for one more call.
    pub open spec fn below_max(self) -> bool {
        &&& self.open < u64::MAX
        &&& self.begin_doc < u64::MAX
        &&& self.begin_page < u64::MAX
        &&& self.write < u64::MAX
        &&& self.end_page < u64::MAX
        &&& self.end_doc < u64::MAX
        &&& self.close < u64::MAX
    }
}

/// How many bytes a transfer of `len` payload bytes reports against a device
/// accepting at most `capacity`: the whole payload, or a short count.
pub open spec fn accepted_count(len: nat, capacity: u32) -> nat {
    if len <= capacity {
        len
    } else {
        capacity as nat
    }
}

/// A spooler double with fixed outcomes and call counters.
pub struct MockSpooler {
    /// Which steps succeed.
    pub config: MockConfig,
    /// How often each call came in.
    pub counts: CallCounts,
    /// Whether a handle is currently held open on this spooler.
    pub handle_open: bool,
    /// The display label the last registered document was given.
    pub last_doc_name: Option<String>,
    /// The datatype marker the last registered document was given.
    pub last_datatype: Option<String>,
}

impl MockSpooler {
    /// A fresh spooler on which every step succeeds and one transfer accepts
    /// up to `capacity` bytes. Failures are injected by setting the public
    /// `config` fields afterwards.
    pub fn new(capacity: u32) -> (s: MockSpooler)
        ensures
            s.config == (MockConfig {
                destination_exists: true,
                doc_start_ok: true,
                page_start_ok: true,
                write_ok: true,
                end_page_ok: true,
                end_doc_ok: true,
                capacity,
            }),
            s.counts == CallCounts::zero(),
            !s.handle_open,
            s.last_doc_name is None,
            s.last_datatype is None,
    {
        MockSpooler {
            config: MockConfig {
                destination_exists: true,
                doc_start_ok: true,
                page_start_ok: true,
                write_ok: true,
                end_page_ok: true,
                end_doc_ok: true,
                capacity,
            },
            counts: CallCounts { open: 0, begin_doc: 0, begin_page: 0, write: 0, end_page: 0, end_doc: 0, close: 0 },
            handle_open: false,
            last_doc_name: None,
            last_datatype: None,
        }
    }

    /// Acquire a handle to the named destination. Succeeds exactly when the
    /// configured destination exists.
    pub fn open(&mut self, destination: &str) -> (r: bool)
        requires
            old(self).counts.open < u64::MAX,
            !old(self).handle_open,
        ensures
            r == old(self).config.destination_exists,
            final(self).counts == (CallCounts { open: (old(self).counts.open + 1) as u64, ..old(self).counts }),
            final(self).config == old(self).config,
            final(self).handle_open == r,
            final(self).last_doc_name == old(self).last_doc_name,
            final(self).last_datatype == old(self).last_datatype,
    {
        self.counts.open = self.counts.open + 1;
        if self.config.destination_exists {
            self.handle_open = true;
            true
        } else {
            false
        }
    }

    /// Register a document under the given display label and datatype
    /// marker. The returned job identifier is positive on success and zero
    /// when the spooler refuses the job.
    pub fn begin_doc(&mut self, name: &str, datatype: &str) -> (job_id: u32)
        requires
            old(self).counts.begin_doc < u64::MAX,
            old(self).handle_open,
        ensures
            job_id == (if old(self).config.doc_start_ok { 1u32 } else { 0u32 }),
            final(self).counts == (CallCounts { begin_doc: (old(self).counts.begin_doc + 1) as u64, ..old(self).counts }),
            final(self).config == old(self).config,
            final(self).handle_open == old(self).handle_open,
            final(self).last_doc_name matches Some(n) && n@ == name@,
            final(self).last_datatype matches Some(d) && d@ == datatype@,
    {
        self.counts.begin_doc = self.counts.begin_doc + 1;
        self.last_doc_name = Some(name.to_owned());
        self.last_datatype = Some(datatype.to_owned());
        if self.config.doc_start_ok {
            1
        } else {
            0
        }
    }

    /// Mark the start of the page.
    pub fn begin_page(&mut self) -> (r: bool)
        requires
            old(self).counts.begin_page < u64::MAX,
            old(self).handle_open,
        ensures
            r == old(self).config.page_start_ok,
            final(self).counts == (CallCounts { begin_page: (old(self).counts.begin_page + 1) as u64, ..old(self).counts }),
            final(self).config == old(self).config,
            final(self).handle_open == old(self).handle_open,
            final(self).last_doc_name == old(self).last_doc_name,
            final(self).last_datatype == old(self).last_datatype,
    {
        self.counts.begin_page = self.counts.begin_page + 1;
        self.config.page_start_ok
    }

    /// Transfer the payload. On success the reported count is the payload
    /// length, cut short at the configured capacity; on failure there is no
    /// count.
    pub fn write(&mut self, payload: &[u8]) -> (r: Option<u32>)
        requires
            old(self).counts.write < u64::MAX,
            old(self).handle_open,
            payload@.len() <= u32::MAX,
        ensures
            r == (if old(self).config.write_ok {
                Some(accepted_count(payload@.len(), old(self).config.capacity) as u32)
            } else {
                None::<u32>
            }),
            final(self).counts == (CallCounts { write: (old(self).counts.write + 1) as u64, ..old(self).counts }),
            final(self).config == old(self).config,
            final(self).handle_open == old(self).handle_open,
            final(self).last_doc_name == old(self).last_doc_name,
            final(self).last_datatype == old(self).last_datatype,
    {
        self.counts.write = self.counts.write + 1;
        if self.config.write_ok {
            let len: usize = payload.len();
            if len <= self.config.capacity as usize {
                Some(len as u32)
            } else {
                Some(self.config.capacity)
            }
        } else {
            None
        }
    }

    /// Mark the end of the page.
    pub fn end_page(&mut self) -> (r: bool)
        requires
            old(self).counts.end_page < u64::MAX,
            old(self).handle_open,
        ensures
            r == old(self).config.end_page_ok,
            final(self).counts == (CallCounts { end_page: (old(self).counts.end_page + 1) as u64, ..old(self).counts }),
            final(self).config == old(self).config,
            final(self).handle_open == old(self).handle_open,
            final(self).last_doc_name == old(self).last_doc_name,
            final(self).last_datatype == old(self).last_datatype,
    {
        self.counts.end_page = self.counts.end_page + 1;
        self.config.end_page_ok
    }

    /// Mark the end of the document.
    pub fn end_doc(&mut self) -> (r: bool)
        requires
            old(self).counts.end_doc < u64::MAX,
            old(self).handle_open,
        ensures
            r == old(self).config.end_doc_ok,
            final(self).counts == (CallCounts { end_doc: (old(self).counts.end_doc + 1) as u64, ..old(self).counts }),
            final(self).config == old(self).config,
            final(self).handle_open == old(self).handle_open,
            final(self).last_doc_name == old(self).last_doc_name,
            final(self).last_datatype == old(self).last_datatype,
    {
        self.counts.end_doc = self.counts.end_doc + 1;
        self.config.end_doc_ok
    }

    /// Release the handle.
    pub fn close(&mut self)
        requires
            old(self).counts.close < u64::MAX,
            old(self).handle_open,
        ensures
            final(self).counts == (CallCounts { close: (old(self).counts.close + 1) as u64, ..old(self).counts }),
            final(self).config == old(self).config,
            !final(self).handle_open,
            final(self).last_doc_name == old(self).last_doc_name,
            final(self).last_datatype == old(self).last_datatype,
    {
        self.counts.close = self.counts.close + 1;
        self.handle_open = false;
    }
}

} // verus!
