//! The management-bridge backend's decisions: the typed requests it sends,
//! what a bridge answer means, and how attribute values become telemetry.
//! The HTTP round-trip itself happens with the callers; thread and class
//! data are documented approximations of what the local backend delivers.

use vstd::prelude::*;
use vstd::string::StringExecFns;
use crate::error::AppError;
use crate::text::{dec_of, digits_end, find_lit_from, num_of, parse_u64, scan_digits, to_chars, u64_to_string};
use crate::types::{
    ClassInfo, GcStats, HeapInfo, JvmInfo, MemoryPool, PoolType, ThreadInfo, ThreadState,
};

verus! {

/// One typed request to the bridge: an attribute read or an operation call
/// on an mbean.
#[derive(Debug, Clone)]
pub struct JolokiaRequest {
    pub request_type: String,
    pub mbean: String,
    pub attribute: Option<String>,
    pub operation: Option<String>,
    pub arguments: Option<Vec<String>>,
}

impl JolokiaRequest {
    /// An attribute read.
    pub fn read(mbean: &str, attribute: &str) -> (r: Self)
        ensures
            r.request_type@ == "read"@,
            r.mbean@ == mbean@,
            r.attribute matches Some(a) && a@ == attribute@,
            r.operation is None,
            r.arguments is None,
    {
        JolokiaRequest {
            request_type: String::from_str("read"),
            mbean: String::from_str(mbean),
            attribute: Some(String::from_str(attribute)),
            operation: None,
            arguments: None,
        }
    }

    /// An operation call.
    pub fn exec(mbean: &str, operation: &str, arguments: Vec<String>) -> (r: Self)
        ensures
            r.request_type@ == "exec"@,
            r.mbean@ == mbean@,
            r.attribute is None,
            r.operation matches Some(o) && o@ == operation@,
            r.arguments == Some(arguments),
    {
        JolokiaRequest {
            request_type: String::from_str("exec"),
            mbean: String::from_str(mbean),
            attribute: None,
            operation: Some(String::from_str(operation)),
            arguments: Some(arguments),
        }
    }
}

/// What an answer from the bridge means: an embedded status other than 200
/// inside a well-formed reply is the bridge's own error, surfaced with its
/// message or a fixed marker.
pub fn check_response(status: u32, error: Option<String>) -> (r: Result<(), AppError>)
    ensures
        status == 200 <==> r is Ok,
        r is Err ==> r->Err_0 is Connection,
{
    if status != 200 {
        let mut msg = String::from_str("Jolokia error: ");
        match error {
            Some(e) => {
                msg.append(e.as_str());
            },
            None => {
                msg.append("Unknown error");
            },
        }
        return Err(AppError::Connection(msg));
    }
    Ok(())
}

/// The process id embedded in a runtime name of the form `pid@host`: the
/// digits before the separator, or zero when they are missing, malformed or
/// out of range.
pub open spec fn spec_pid_of_runtime_name(s: Seq<char>) -> u32 {
    let at = find_lit_from(s, 0, "@"@);
    let p0 = if at >= 0 {
        s.subrange(0, at)
    } else {
        s
    };
    if p0.len() > 0 && digits_end(p0, 0) == p0.len() && num_of(p0) <= u32::MAX {
        num_of(p0) as u32
    } else {
        0
    }
}

/// The process id read from the bridge's runtime name.
pub fn parse_pid_from_runtime_name(name: &str) -> (r: u32)
    ensures
        r == spec_pid_of_runtime_name(name@),
{
    let chars = to_chars(name);
    let at_pat = to_chars("@");
    let p0: Vec<char> = match crate::text::find_lit(&chars, 0, &at_pat) {
        Some(at) => {
            proof {
                reveal_strlit("@");
                crate::text::lemma_find_lit_from(chars@, 0, "@"@);
            }
            crate::text::copy_range(&chars, 0, at)
        },
        None => {
            proof {
                assert(chars@.subrange(0, chars@.len() as int) =~= chars@);
            }
            crate::text::copy_range(&chars, 0, chars.len())
        },
    };
    let d = scan_digits(&p0, 0);
    if !(p0.len() > 0 && d == p0.len()) {
        return 0;
    }
    proof {
        crate::text::lemma_digits_end(p0@, 0);
        assert(p0@.subrange(0, p0@.len() as int) =~= p0@);
    }
    match parse_u64(&p0, 0, d) {
        Some(v) => if v <= 0xffff_ffff {
            v as u32
        } else {
            0
        },
        None => 0,
    }
}

/// Connect-time facts from the bridge's runtime attributes: the id from the
/// runtime name, the reported version or a fixed marker, uptime scaled from
/// milliseconds to seconds, and no flags — the bridge reports none.
pub fn jvm_info_from_attributes(
    runtime_name: Option<&str>,
    vm_version: Option<&str>,
    uptime_ms: Option<u64>,
) -> (r: JvmInfo)
    ensures
        r.pid == (match runtime_name {
            Some(n) => spec_pid_of_runtime_name(n@),
            None => 0u32,
        }),
        r.main_class@ == "Remote JVM"@,
        r.version@ == (match vm_version {
            Some(v) => v@,
            None => "Unknown"@,
        }),
        r.uptime_seconds == (match uptime_ms {
            Some(m) => m / 1000,
            None => 0u64,
        }),
        r.vm_flags@.len() == 0,
{
    let pid = match runtime_name {
        Some(n) => parse_pid_from_runtime_name(n),
        None => 0,
    };
    let version = match vm_version {
        Some(v) => String::from_str(v),
        None => String::from_str("Unknown"),
    };
    let uptime_seconds = match uptime_ms {
        Some(m) => m / 1000,
        None => 0,
    };
    JvmInfo {
        pid,
        main_class: String::from_str("Remote JVM"),
        version,
        uptime_seconds,
        vm_flags: Vec::new(),
    }
}

/// A heap sample from the bridge's memory-usage attribute: the three
/// figures, with a missing one read as zero, and one synthetic pool
/// standing for the whole remote heap.
pub fn heap_info_from_usage(used: Option<u64>, max: Option<u64>, committed: Option<u64>) -> (r:
    HeapInfo)
    ensures
        r.used_bytes == (match used {
            Some(v) => v,
            None => 0u64,
        }),
        r.max_bytes == (match max {
            Some(v) => v,
            None => 0u64,
        }),
        r.committed_bytes == (match committed {
            Some(v) => v,
            None => 0u64,
        }),
        r.pools@.len() == 1,
        r.pools@[0].name@ == "Remote Heap"@,
        r.pools@[0].pool_type == PoolType::Old,
        r.pools@[0].used_bytes == r.used_bytes,
        r.pools@[0].max_bytes == r.max_bytes,
        r.pools@[0].committed_bytes == r.committed_bytes,
{
    let used_bytes = match used {
        Some(v) => v,
        None => 0,
    };
    let max_bytes = match max {
        Some(v) => v,
        None => 0,
    };
    let committed_bytes = match committed {
        Some(v) => v,
        None => 0,
    };
    let mut pools: Vec<MemoryPool> = Vec::new();
    pools.push(
        MemoryPool {
            name: String::from_str("Remote Heap"),
            pool_type: PoolType::Old,
            used_bytes,
            max_bytes,
            committed_bytes,
        },
    );
    HeapInfo { used_bytes, max_bytes, committed_bytes, pools }
}

/// Counters from the bridge's collector attributes: the bridge reports one
/// cumulative pair, recorded as the young generation with the old one left
/// at zero; a missing figure reads as zero.
pub fn gc_stats_from_counters(count: Option<u64>, time_ms: Option<u64>) -> (r: GcStats)
    ensures
        r.young_gc_count == (match count {
            Some(v) => v,
            None => 0u64,
        }),
        r.young_gc_time_ms == (match time_ms {
            Some(v) => v,
            None => 0u64,
        }),
        r.old_gc_count == 0,
        r.old_gc_time_ms == 0,
{
    GcStats {
        young_gc_count: match count {
            Some(v) => v,
            None => 0,
        },
        young_gc_time_ms: match time_ms {
            Some(v) => v,
            None => 0,
        },
        old_gc_count: 0,
        old_gc_time_ms: 0,
        timestamp_ms: crate::jstat::now_millis(),
    }
}

/// A thread snapshot approximated from the bridge's thread count alone:
/// entries with synthetic names, read-as-runnable states and empty stacks,
/// capped at fifty — a documented capability gap of this backend.
pub fn thread_info_approximation(thread_count: Option<u64>) -> (r: Vec<ThreadInfo>)
    ensures
        ({
            let n = match thread_count {
                Some(v) => v,
                None => 0u64,
            };
            let cap = if n <= 50 {
                n
            } else {
                50u64
            };
            &&& r@.len() == cap
            &&& forall|k: int|
                0 <= k < r@.len() ==> {
                    &&& (#[trigger] r@[k]).id == k
                    &&& r@[k].name@ == "Thread-"@ + dec_of(k as nat)
                    &&& r@[k].state == ThreadState::Runnable
                    &&& r@[k].stack_trace@.len() == 0
                }
        }),
{
    let n = match thread_count {
        Some(v) => v,
        None => 0,
    };
    let cap = if n <= 50 {
        n
    } else {
        50
    };
    let mut out: Vec<ThreadInfo> = Vec::new();
    let mut i: u64 = 0;
    loop
        invariant
            i <= cap <= 50,
            cap == (match thread_count {
                Some(v) => if v <= 50 {
                    v
                } else {
                    50u64
                },
                None => 0u64,
            }),
            out@.len() == i,
            forall|k: int|
                0 <= k < out@.len() ==> {
                    &&& (#[trigger] out@[k]).id == k
                    &&& out@[k].name@ == "Thread-"@ + dec_of(k as nat)
                    &&& out@[k].state == ThreadState::Runnable
                    &&& out@[k].stack_trace@.len() == 0
                },
        decreases cap - i,
    {
        if i >= cap {
            return out;
        }
        let mut name = String::from_str("Thread-");
        let num = u64_to_string(i);
        name.append(num.as_str());
        out.push(
            ThreadInfo { id: i, name, state: ThreadState::Runnable, stack_trace: Vec::new() },
        );
        i = i + 1;
    }
}

/// A class histogram approximated from the bridge's loaded-class count: one
/// synthetic row carrying the total — a documented capability gap of this
/// backend.
pub fn class_histogram_approximation(loaded_classes: Option<u64>) -> (r: Vec<ClassInfo>)
    ensures
        r@.len() == 1,
        r@[0].rank == 1,
        r@[0].instances == (match loaded_classes {
            Some(v) => v,
            None => 0u64,
        }),
        r@[0].bytes == 0,
        r@[0].name@ == "Classes (remote)"@,
{
    let mut out: Vec<ClassInfo> = Vec::new();
    out.push(
        ClassInfo {
            rank: 1,
            instances: match loaded_classes {
                Some(v) => v,
                None => 0,
            },
            bytes: 0,
            name: String::from_str("Classes (remote)"),
        },
    );
    out
}

/// Connection state of one bridge session.  The bridge is stateless, so
/// `is_connected` reports the last known outcome, not a live link.
pub struct JolokiaConnector {
    pub url: String,
    pub username: Option<String>,
    pub password: Option<String>,
    pub connected: bool,
}

impl JolokiaConnector {
    pub fn new(url: String, username: Option<String>, password: Option<String>) -> (r: Self)
        ensures
            r.url == url,
            r.username == username,
            r.password == password,
            !r.connected,
    {
        JolokiaConnector { url, username, password, connected: false }
    }

    /// The probe request a connect sends: a runtime-name read.
    pub fn connect_request(&self) -> (r: JolokiaRequest)
        ensures
            r.request_type@ == "read"@,
            r.mbean@ == "java.lang:type=Runtime"@,
            r.attribute matches Some(a) && a@ == "Name"@,
    {
        JolokiaRequest::read("java.lang:type=Runtime", "Name")
    }

    /// Records a connect attempt's outcome: connected exactly when the
    /// probe succeeded.
    pub fn record_connect(&mut self, probe_succeeded: bool)
        ensures
            final(self).connected == probe_succeeded,
            final(self).url == old(self).url,
            final(self).username == old(self).username,
            final(self).password == old(self).password,
    {
        self.connected = probe_succeeded;
    }

    /// Detaches; always succeeds.
    pub fn disconnect(&mut self) -> (r: Result<(), AppError>)
        ensures
            r is Ok,
            !final(self).connected,
            final(self).url == old(self).url,
            final(self).username == old(self).username,
            final(self).password == old(self).password,
    {
        self.connected = false;
        Ok(())
    }

    /// Last-known connection state.
    pub fn is_connected(&self) -> (b: bool)
        ensures
            b == self.connected,
    {
        self.connected
    }
}

} // verus!
