//! Typed telemetry produced by the connectors and parsers.

use vstd::prelude::*;

verus! {

/// Facts captured once when a connector attaches to a process.
#[derive(Debug, Clone)]
pub struct JvmInfo {
    pub pid: u32,
    pub main_class: String,
    pub version: String,
    pub uptime_seconds: u64,
    pub vm_flags: Vec<String>,
}

/// Spec-level image of `JvmInfo`.
pub struct JvmInfoModel {
    pub pid: u32,
    pub main_class: Seq<char>,
    pub version: Seq<char>,
    pub uptime_seconds: u64,
    pub vm_flags: Seq<Seq<char>>,
}

impl JvmInfo {
    /// A copy that is equal at the model level.
    pub fn duplicate(&self) -> (r: JvmInfo)
        ensures
            r@ == self@,
    {
        let mut flags: Vec<String> = Vec::new();
        let mut i: usize = 0;
        loop
            invariant
                i <= self.vm_flags@.len(),
                flags@.len() == i,
                forall|k: int| 0 <= k < i ==> flags@[k]@ == self.vm_flags@[k]@,
            ensures
                flags@.len() == self.vm_flags@.len(),
                forall|k: int| 0 <= k < flags@.len() ==> flags@[k]@ == self.vm_flags@[k]@,
            decreases self.vm_flags@.len() - i,
        {
            if i >= self.vm_flags.len() {
                break;
            }
            flags.push(self.vm_flags[i].clone());
            i = i + 1;
        }
        let r = JvmInfo {
            pid: self.pid,
            main_class: self.main_class.clone(),
            version: self.version.clone(),
            uptime_seconds: self.uptime_seconds,
            vm_flags: flags,
        };
        proof {
            assert(r@.vm_flags =~= self@.vm_flags);
        }
        r
    }
}

impl View for JvmInfo {
    type V = JvmInfoModel;

    open spec fn view(&self) -> JvmInfoModel {
        JvmInfoModel {
            pid: self.pid,
            main_class: self.main_class@,
            version: self.version@,
            uptime_seconds: self.uptime_seconds,
            vm_flags: Seq::new(self.vm_flags@.len(), |i: int| self.vm_flags@[i]@),
        }
    }
}

/// One heap sample: totals plus the memory pools it reported.
#[derive(Debug, Clone)]
pub struct HeapInfo {
    pub used_bytes: u64,
    pub max_bytes: u64,
    pub committed_bytes: u64,
    pub pools: Vec<MemoryPool>,
}

/// Spec-level image of `HeapInfo`.
pub struct HeapInfoModel {
    pub used_bytes: u64,
    pub max_bytes: u64,
    pub committed_bytes: u64,
    pub pools: Seq<MemoryPoolModel>,
}

impl View for HeapInfo {
    type V = HeapInfoModel;

    open spec fn view(&self) -> HeapInfoModel {
        HeapInfoModel {
            used_bytes: self.used_bytes,
            max_bytes: self.max_bytes,
            committed_bytes: self.committed_bytes,
            pools: Seq::new(self.pools@.len(), |i: int| self.pools@[i]@),
        }
    }
}

/// A non-heap or generational memory pool.
#[derive(Debug, Clone)]
pub struct MemoryPool {
    pub name: String,
    pub pool_type: PoolType,
    pub used_bytes: u64,
    pub max_bytes: u64,
    pub committed_bytes: u64,
}

/// Spec-level image of `MemoryPool`.
pub struct MemoryPoolModel {
    pub name: Seq<char>,
    pub pool_type: PoolType,
    pub used_bytes: u64,
    pub max_bytes: u64,
    pub committed_bytes: u64,
}

impl View for MemoryPool {
    type V = MemoryPoolModel;

    open spec fn view(&self) -> MemoryPoolModel {
        MemoryPoolModel {
            name: self.name@,
            pool_type: self.pool_type,
            used_bytes: self.used_bytes,
            max_bytes: self.max_bytes,
            committed_bytes: self.committed_bytes,
        }
    }
}

#[derive(Debug, Clone, Copy, PartialEq, Eq, Structural)]
pub enum PoolType {
    Eden,
    Survivor,
    Old,
    Metaspace,
    CodeCache,
    Other,
}

/// Cumulative collection counters; times are in milliseconds.  A decrease
/// between samples signals an undetected restart of the observed process.
#[derive(Debug, Clone, Copy, PartialEq, Eq, Structural)]
pub struct GcStats {
    pub young_gc_count: u64,
    pub young_gc_time_ms: u64,
    pub old_gc_count: u64,
    pub old_gc_time_ms: u64,
    /// Capture time, milliseconds since the epoch.
    pub timestamp_ms: i64,
}

/// One thread of the observed process.
#[derive(Debug, Clone)]
pub struct ThreadInfo {
    pub id: u64,
    pub name: String,
    pub state: ThreadState,
    pub stack_trace: Vec<StackFrame>,
}

/// Spec-level image of `ThreadInfo`.
pub struct ThreadInfoModel {
    pub id: u64,
    pub name: Seq<char>,
    pub state: ThreadState,
    pub stack_trace: Seq<StackFrameModel>,
}

impl View for ThreadInfo {
    type V = ThreadInfoModel;

    open spec fn view(&self) -> ThreadInfoModel {
        ThreadInfoModel {
            id: self.id,
            name: self.name@,
            state: self.state,
            stack_trace: Seq::new(self.stack_trace@.len(), |i: int| self.stack_trace@[i]@),
        }
    }
}

#[derive(Debug, Clone, Copy, PartialEq, Eq, Hash, Structural)]
pub enum ThreadState {
    Runnable,
    Blocked,
    Waiting,
    TimedWaiting,
    Terminated,
    New,
}

/// One stack frame of a thread dump.
#[derive(Debug, Clone)]
pub struct StackFrame {
    pub class_name: String,
    pub method_name: String,
    pub file_name: Option<String>,
    pub line_number: Option<u32>,
}

/// Spec-level image of `StackFrame`.
pub struct StackFrameModel {
    pub class_name: Seq<char>,
    pub method_name: Seq<char>,
    pub file_name: Option<Seq<char>>,
    pub line_number: Option<u32>,
}

impl View for StackFrame {
    type V = StackFrameModel;

    open spec fn view(&self) -> StackFrameModel {
        StackFrameModel {
            class_name: self.class_name@,
            method_name: self.method_name@,
            file_name: match self.file_name {
                Some(ref f) => Some(f@),
                None => None,
            },
            line_number: self.line_number,
        }
    }
}

/// One row of the class histogram.
#[derive(Debug, Clone)]
pub struct ClassInfo {
    pub rank: u32,
    pub instances: u64,
    pub bytes: u64,
    pub name: String,
}

/// Spec-level image of `ClassInfo`.
pub struct ClassInfoModel {
    pub rank: u32,
    pub instances: u64,
    pub bytes: u64,
    pub name: Seq<char>,
}

impl View for ClassInfo {
    type V = ClassInfoModel;

    open spec fn view(&self) -> ClassInfoModel {
        ClassInfoModel {
            rank: self.rank,
            instances: self.instances,
            bytes: self.bytes,
            name: self.name@,
        }
    }
}

} // verus!
