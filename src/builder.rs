use std::time::Duration;
use vstd::prelude::*;

use crate::inner::{Inner, InnerView};

verus! {

/// How long, in milliseconds, an idle worker above the floor waits for work
/// before it leaves, and how often the daemon looks at the worker count,
/// unless configured otherwise.
pub const TIME_OUT_MS: u64 = 5000;

/// What `Duration::from_millis` returns for a count of milliseconds.
pub uninterp spec fn duration_of_millis(ms: u64) -> Duration;

/// Relies on core::time::Duration::from_millis: the duration depends on the
/// count of milliseconds alone.
pub assume_specification[ std::time::Duration::from_millis ](millis: u64) -> (r: Duration)
    ensures
        r == duration_of_millis(millis),
;

/// Relies on num_cpus::get: the number of logical CPUs, which its
/// documentation promises is at least one.
#[verifier::external_body]
fn host_cpus() -> (r: usize)
    ensures
        r >= 1,
{
    num_cpus::get()
}

/// `a * b`, or `usize::MAX` where the product does not fit.
pub open spec fn saturated_product(a: nat, b: nat) -> nat {
    if a * b <= usize::MAX {
        a * b
    } else {
        usize::MAX as nat
    }
}

/// The default floor on the worker count for a host with `cpus` CPUs.
pub open spec fn min_default_for(cpus: nat) -> nat {
    if cpus + 1 <= usize::MAX {
        cpus + 1
    } else {
        usize::MAX as nat
    }
}

/// The default ceiling on the worker count for a host with `cpus` CPUs.
pub open spec fn max_default_for(cpus: nat) -> nat {
    saturated_product(min_default_for(cpus), cpus)
}

/// The default load limit for a host with `cpus` CPUs.
pub open spec fn load_limit_default_for(cpus: nat) -> nat {
    saturated_product(cpus, cpus)
}

fn saturating_product(a: usize, b: usize) -> (r: usize)
    ensures
        r == saturated_product(a as nat, b as nat),
{
    match a.checked_mul(b) {
        Some(p) => p,
        None => usize::MAX,
    }
}

fn min_default_of(cpus: usize) -> (r: usize)
    ensures
        r == min_default_for(cpus as nat),
{
    if cpus < usize::MAX {
        cpus + 1
    } else {
        usize::MAX
    }
}

fn max_default_of(cpus: usize) -> (r: usize)
    ensures
        r == max_default_for(cpus as nat),
{
    saturating_product(min_default_of(cpus), cpus)
}

/// The settings of a pool, as plain values.
pub ghost struct BuilderView {
    pub name: Option<Seq<char>>,
    pub stack_size: Option<usize>,
    pub min: nat,
    pub max: nat,
    pub timeout: Option<Duration>,
    pub load_limit: nat,
    pub daemon: Option<Duration>,
    /// The host parallelism that the defaults were derived from.
    pub cpus: nat,
}

/// Why a configuration cannot start a pool.
#[derive(Debug, Clone, Copy, PartialEq, Eq, Structural)]
pub enum ConfigError {
    /// The floor on the worker count lies above the ceiling.
    MinAboveMax,
    /// The ceiling on the worker count is zero.
    MaxZero,
}

impl ConfigError {
    /// A short description of the error.
    pub fn message(&self) -> (r: &'static str)
        ensures
            r@.len() > 0,
    {
        match self {
            ConfigError::MinAboveMax => {
                proof { reveal_strlit("min > max"); }
                "min > max"
            },
            ConfigError::MaxZero => {
                proof { reveal_strlit("max == 0"); }
                "max == 0"
            },
        }
    }
}

/// A pool's settings: thread name and stack size hints, the floor and the
/// ceiling on the worker count, the idle timeout, the load limit that decides
/// when a submission grows the pool, and the daemon's interval.
#[derive(Debug)]
pub struct Builder {
    name: Option<String>,
    stack_size: Option<usize>,
    min: usize,
    max: usize,
    timeout: Option<Duration>,
    load_limit: usize,
    daemon: Option<Duration>,
    cpus: usize,
}

impl View for Builder {
    type V = BuilderView;

    closed spec fn view(&self) -> BuilderView {
        BuilderView {
            name: match self.name {
                Some(s) => Some(s@),
                None => None,
            },
            stack_size: self.stack_size,
            min: self.min as nat,
            max: self.max as nat,
            timeout: self.timeout,
            load_limit: self.load_limit as nat,
            daemon: self.daemon,
            cpus: self.cpus as nat,
        }
    }
}

impl BuilderView {
    /// The settings can start a pool.
    pub open spec fn is_valid(self) -> bool {
        self.min <= self.max && self.max != 0
    }

    /// The settings that `Builder::new` gives on a host with `cpus` CPUs.
    pub open spec fn defaults(cpus: nat) -> BuilderView {
        BuilderView {
            name: None,
            stack_size: None,
            min: min_default_for(cpus),
            max: max_default_for(cpus),
            timeout: Some(duration_of_millis(TIME_OUT_MS)),
            load_limit: load_limit_default_for(cpus),
            daemon: Some(duration_of_millis(TIME_OUT_MS)),
            cpus,
        }
    }
}

impl Builder {
    /// The number of logical CPUs of the host.
    pub fn num_cpus() -> (r: usize)
        ensures
            r >= 1,
    {
        host_cpus()
    }

    /// Settings derived from the host's parallelism: `min` is one more than
    /// the CPU count, `max` is `min` times the CPU count, the load limit is
    /// the CPU count squared, and both the idle timeout and the daemon
    /// interval are five seconds.
    pub fn new() -> (r: Self)
        ensures
            r@.cpus >= 1,
            r@ == BuilderView::defaults(r@.cpus),
    {
        let cpus = host_cpus();
        Builder {
            name: None,
            stack_size: None,
            min: min_default_of(cpus),
            max: max_default_of(cpus),
            timeout: Some(Duration::from_millis(TIME_OUT_MS)),
            load_limit: saturating_product(cpus, cpus),
            daemon: Some(Duration::from_millis(TIME_OUT_MS)),
            cpus,
        }
    }

    /// The default floor on the worker count: one more than the CPU count.
    pub fn min_default() -> (r: usize)
        ensures
            exists|c: nat| c >= 1 && r == min_default_for(c),
    {
        min_default_of(host_cpus())
    }

    /// The default ceiling on the worker count: the default floor times the
    /// CPU count.
    pub fn max_default() -> (r: usize)
        ensures
            exists|c: nat| c >= 1 && r == max_default_for(c),
    {
        max_default_of(host_cpus())
    }
    /// Sets the name of the pool's threads.
    pub fn name(self, name: &str) -> (r: Self)
        ensures
            r@ == (BuilderView { name: Some(name@), ..self@ }),
    {
        Builder { name: Some(name.to_owned()), ..self }
    }

    /// The name of the pool's threads, if one was set.
    pub fn name_get(&self) -> (r: Option<&String>)
        ensures
            r.is_some() == self@.name.is_some(),
            r.is_some() ==> self@.name == Some(r.unwrap()@),
    {
        match &self.name {
            Some(n) => Some(n),
            None => None,
        }
    }

    /// Sets the stack size of the pool's threads.
    pub fn stack_size(self, size: usize) -> (r: Self)
        ensures
            r@ == (BuilderView { stack_size: Some(size), ..self@ }),
    {
        Builder { stack_size: Some(size), ..self }
    }

    /// The stack size of the pool's threads, if one was set.
    pub fn stack_size_get(&self) -> (r: Option<&usize>)
        ensures
            r.is_some() == self@.stack_size.is_some(),
            r.is_some() ==> self@.stack_size == Some(*r.unwrap()),
    {
        match &self.stack_size {
            Some(n) => Some(n),
            None => None,
        }
    }

    /// Sets the floor on the worker count. Where the ceiling still holds its
    /// default and lies below the new floor, the ceiling is raised to it.
    pub fn min(self, min: usize) -> (r: Self)
        ensures
            r@ == (BuilderView {
                min: min as nat,
                max: if self@.max < min && self@.max == max_default_for(self@.cpus) {
                    min as nat
                } else {
                    self@.max
                },
                ..self@
            }),
    {
        let max = if self.max < min && self.max == max_default_of(self.cpus) {
            min
        } else {
            self.max
        };
        Builder { min, max, ..self }
    }

    /// The floor on the worker count.
    pub fn min_get(&self) -> (r: &usize)
        ensures
            *r == self@.min,
    {
        &self.min
    }

    /// Sets the ceiling on the worker count. Where the floor still holds its
    /// default and lies above the new ceiling, the floor is lowered to it.
    pub fn max(self, max: usize) -> (r: Self)
        ensures
            r@ == (BuilderView {
                max: max as nat,
                min: if self@.min > max && self@.min == min_default_for(self@.cpus) {
                    max as nat
                } else {
                    self@.min
                },
                ..self@
            }),
    {
        let min = if self.min > max && self.min == min_default_of(self.cpus) {
            max
        } else {
            self.min
        };
        Builder { min, max, ..self }
    }

    /// The ceiling on the worker count.
    pub fn max_get(&self) -> (r: &usize)
        ensures
            *r == self@.max,
    {
        &self.max
    }

    /// Sets the idle timeout in milliseconds; `None` keeps idle workers for
    /// good.
    pub fn timeout_ms(self, timeout: Option<u64>) -> (r: Self)
        ensures
            r@ == (BuilderView {
                timeout: match timeout {
                    Some(ms) => Some(duration_of_millis(ms)),
                    None => None,
                },
                ..self@
            }),
    {
        let timeout = match timeout {
            Some(ms) => Some(Duration::from_millis(ms)),
            None => None,
        };
        self.timeout(timeout)
    }

    /// Sets how long a worker above the floor waits for work before it
    /// leaves; `None` keeps idle workers for good.
    pub fn timeout(self, timeout: Option<Duration>) -> (r: Self)
        ensures
            r@ == (BuilderView { timeout, ..self@ }),
    {
        Builder { timeout, ..self }
    }

    /// The idle timeout, if any.
    pub fn timeout_get(&self) -> (r: Option<&Duration>)
        ensures
            r.is_some() == self@.timeout.is_some(),
            r.is_some() ==> self@.timeout == Some(*r.unwrap()),
    {
        match &self.timeout {
            Some(d) => Some(d),
            None => None,
        }
    }

    /// Sets the daemon's interval in milliseconds; `None` runs no daemon.
    pub fn daemon_ms(self, daemon: Option<u64>) -> (r: Self)
        ensures
            r@ == (BuilderView {
                daemon: match daemon {
                    Some(ms) => Some(duration_of_millis(ms)),
                    None => None,
                },
                ..self@
            }),
    {
        let daemon = match daemon {
            Some(ms) => Some(Duration::from_millis(ms)),
            None => None,
        };
        Builder { daemon, ..self }
    }

    /// Sets how often the daemon restores the floor; `None` runs no daemon.
    pub fn daemon(self, daemon: Option<Duration>) -> (r: Self)
        ensures
            r@ == (BuilderView { daemon, ..self@ }),
    {
        Builder { daemon, ..self }
    }

    /// The daemon's interval, if a daemon runs.
    pub fn daemon_get(&self) -> (r: Option<&Duration>)
        ensures
            r.is_some() == self@.daemon.is_some(),
            r.is_some() ==> self@.daemon == Some(*r.unwrap()),
    {
        match &self.daemon {
            Some(d) => Some(d),
            None => None,
        }
    }

    /// Sets the queue length per worker above which a submission grows the
    /// pool rather than leaving the task for a busy worker.
    pub fn load_limit(self, load_limit: usize) -> (r: Self)
        ensures
            r@ == (BuilderView { load_limit: load_limit as nat, ..self@ }),
    {
        Builder { load_limit, ..self }
    }

    /// The load limit.
    pub fn load_limit_get(&self) -> (r: &usize)
        ensures
            *r == self@.load_limit,
    {
        &self.load_limit
    }

    /// Starts a pool's shared state: the `min` workers of the floor are
    /// counted as being started, and the caller spawns them.
    pub fn run<T>(self) -> (r: Inner<T>)
        requires
            self@.is_valid(),
        ensures
            r@.wf(),
            r@.workers() == self@.min,
            r@ == (InnerView::<T> {
                config: self@,
                tasks: Seq::empty(),
                pending: self@.min,
                alive: 0,
                waiting: 0,
                daemon_alive: false,
                dropped: false,
            }),
    {
        let min = self.min;
        let mut inner = Inner::with_builder(self);
        inner.add_threads(min);
        inner
    }

    /// Tells whether the settings can start a pool, and why not.
    pub fn validate(&self) -> (r: Result<(), ConfigError>)
        ensures
            r is Ok <==> self@.is_valid(),
            r == Err::<(), ConfigError>(ConfigError::MinAboveMax) <==> self@.min > self@.max,
            r == Err::<(), ConfigError>(ConfigError::MaxZero) <==> (self@.min <= self@.max
                && self@.max == 0),
    {
        if self.min > self.max {
            Err(ConfigError::MinAboveMax)
        } else if self.max == 0 {
            Err(ConfigError::MaxZero)
        } else {
            Ok(())
        }
    }
}

impl Clone for Builder {
    fn clone(&self) -> (r: Self)
        ensures
            r@ == self@,
    {
        let name = match &self.name {
            Some(n) => Some(n.clone()),
            None => None,
        };
        Builder {
            name,
            stack_size: self.stack_size,
            min: self.min,
            max: self.max,
            timeout: self.timeout,
            load_limit: self.load_limit,
            daemon: self.daemon,
            cpus: self.cpus,
        }
    }
}

impl Default for Builder {
    fn default() -> (r: Self)
        ensures
            r@.cpus >= 1,
            r@ == BuilderView::defaults(r@.cpus),
    {
        Builder::new()
    }
}

} // verus!
