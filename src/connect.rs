use vstd::prelude::*;
use vstd::slice::slice_to_vec;
use vstd::string::StringSliceAdditionalSpecFns;
use crate::address::{find_nul, first_nul};
use crate::descriptor::{Installed, ProtocolDesc};
use crate::error::ConnectionError;

verus! {

/// Which native call an attempt makes.
#[derive(Debug, Clone, Copy, PartialEq, Eq, Structural)]
pub enum Attempt {
    /// Wait for one inbound connection on the port.
    Accept,
    /// Connect to the host and port.
    Connect,
}

/// Whether a descriptor whose `made`-th attempt just failed has run out of
/// attempts under the bound `max` (`None`: never).
pub open spec fn out_of_attempts(made: nat, max: Option<usize>) -> bool {
    match max {
        Some(n) => made >= n,
        None => false,
    }
}

/// What comes of a run of native attempts whose statuses are `statuses`,
/// starting with `made` attempts already made: the number of attempts made
/// in all, and whether the last of them connected. The run stops at the
/// first success, when the bound is reached, or when `statuses` ends.
/// `Connecting::on_status` takes exactly one step of it.
pub open spec fn drive(made: nat, max: Option<usize>, statuses: Seq<i32>) -> (nat, bool)
    decreases statuses.len(),
{
    if statuses.len() == 0 {
        (made, false)
    } else if statuses[0] == 0 {
        (made + 1, true)
    } else if out_of_attempts(made + 1, max) {
        (made + 1, false)
    } else {
        drive(made + 1, max, statuses.drop_first())
    }
}

proof fn lemma_bounded_from(made: nat, n: usize, statuses: Seq<i32>)
    requires
        made < n,
        statuses.len() >= n - made,
        forall|i: int| 0 <= i < statuses.len() ==> statuses[i] != 0,
    ensures
        drive(made, Some(n), statuses) == (n as nat, false),
    decreases statuses.len(),
{
    if made + 1 < n {
        let rest = statuses.drop_first();
        assert forall|i: int| 0 <= i < rest.len() implies rest[i] != 0 by {
            assert(rest[i] == statuses[i + 1]);
        }
        lemma_bounded_from(made + 1, n, rest);
    }
}

/// With a bound of `n` attempts and a peer that never accepts, exactly `n`
/// attempts are made and then the connection fails.
pub proof fn lemma_bounded_retry(n: usize, statuses: Seq<i32>)
    requires
        n >= 1,
        statuses.len() >= n,
        forall|i: int| 0 <= i < statuses.len() ==> statuses[i] != 0,
    ensures
        drive(0, Some(n), statuses) == (n as nat, false),
{
    lemma_bounded_from(0, n, statuses);
}

proof fn lemma_unbounded_from(made: nat, statuses: Seq<i32>, k: nat)
    requires
        1 <= k <= statuses.len(),
        statuses[k - 1] == 0,
        forall|i: int| 0 <= i < k - 1 ==> statuses[i] != 0,
    ensures
        drive(made, None, statuses) == ((made + k) as nat, true),
    decreases k,
{
    if k > 1 {
        let rest = statuses.drop_first();
        assert(rest[k - 2] == statuses[k - 1]);
        assert forall|i: int| 0 <= i < k - 2 implies rest[i] != 0 by {
            assert(rest[i] == statuses[i + 1]);
        }
        lemma_unbounded_from(made + 1, rest, (k - 1) as nat);
    }
}

/// With no bound on attempts and a peer that first accepts the `k`-th
/// attempt, the connection is made by exactly `k` attempts: not before, and
/// never given up.
pub proof fn lemma_unbounded_retry(statuses: Seq<i32>, k: nat)
    requires
        1 <= k <= statuses.len(),
        statuses[k - 1] == 0,
        forall|i: int| 0 <= i < k - 1 ==> statuses[i] != 0,
    ensures
        drive(0, None, statuses) == (k, true),
{
    lemma_unbounded_from(0, statuses, k);
}

/// A native connection being established: the descriptor, the address, and
/// the retry policy with the number of attempts made so far.
///
/// The caller makes the native call that `attempt` names with `host` and
/// `port`, and hands its status to `on_status`, which decides what comes
/// next. A retry means: sleep `sleep_ms` milliseconds, then attempt again.
/// No sleep follows the final attempt.
#[derive(Debug)]
pub struct Connecting {
    desc: ProtocolDesc,
    attempt: Attempt,
    host: Vec<u8>,
    port: Vec<u8>,
    sleep_ms: u64,
    max_tries: Option<usize>,
    attempts: usize,
}

/// What to do after an attempt.
#[derive(Debug)]
pub enum ConnectStep {
    /// The attempt succeeded; the descriptor has a native transport.
    Connected(ProtocolDesc),
    /// The attempt failed; sleep, then attempt again.
    Retry(Connecting),
    /// The attempt failed and it was the last one allowed.
    Failed(ConnectionError),
}

impl Connecting {
    /// The descriptor being connected.
    pub closed spec fn desc_spec(&self) -> ProtocolDesc {
        self.desc
    }

    /// Which native call to make.
    pub closed spec fn attempt_spec(&self) -> Attempt {
        self.attempt
    }

    /// The host, without a NUL byte; empty for `Accept`.
    pub closed spec fn host_spec(&self) -> Seq<u8> {
        self.host@
    }

    /// The port, without a NUL byte.
    pub closed spec fn port_spec(&self) -> Seq<u8> {
        self.port@
    }

    /// The wait between attempts, in milliseconds.
    pub closed spec fn sleep_spec(&self) -> u64 {
        self.sleep_ms
    }

    /// The most attempts allowed, `None` for no bound.
    pub closed spec fn max_tries_spec(&self) -> Option<usize> {
        self.max_tries
    }

    /// The attempts made so far.
    pub closed spec fn attempts_spec(&self) -> usize {
        self.attempts
    }

    /// Which native call to make.
    pub fn attempt(&self) -> (r: Attempt)
        ensures
            r == self.attempt_spec(),
    {
        self.attempt
    }

    /// The host to connect to; empty for `Accept`.
    pub fn host(&self) -> (r: &[u8])
        ensures
            r@ == self.host_spec(),
    {
        self.host.as_slice()
    }

    /// The port to accept on or connect to.
    pub fn port(&self) -> (r: &[u8])
        ensures
            r@ == self.port_spec(),
    {
        self.port.as_slice()
    }

    /// Milliseconds to sleep before the next attempt.
    pub fn sleep_ms(&self) -> (r: u64)
        ensures
            r == self.sleep_spec(),
    {
        self.sleep_ms
    }

    /// The attempts made so far.
    pub fn attempts(&self) -> (r: usize)
        ensures
            r == self.attempts_spec(),
    {
        self.attempts
    }

    /// The most attempts allowed, `None` for no bound.
    pub fn max_tries(&self) -> (r: Option<usize>)
        ensures
            r == self.max_tries_spec(),
    {
        self.max_tries
    }

    /// Takes the status of the attempt just made (0 for success) and decides
    /// what comes next.
    pub fn on_status(self, status: i32) -> (r: ConnectStep)
        ensures
            status == 0 ==> (r matches ConnectStep::Connected(d) && d.party_spec()
                == self.desc_spec().party_spec() && d.installed_spec() == Installed::Native),
            status != 0 && out_of_attempts((self.attempts_spec() + 1) as nat, self.max_tries_spec()) ==> r
                == ConnectStep::Failed(ConnectionError::ConnectionFailed),
            status != 0 && !out_of_attempts((self.attempts_spec() + 1) as nat, self.max_tries_spec()) ==> (
            r matches ConnectStep::Retry(c) && c.attempts_spec() == (if self.attempts_spec()
                < usize::MAX {
                self.attempts_spec() + 1
            } else {
                self.attempts_spec() as int
            }) && c.desc_spec() == self.desc_spec() && c.attempt_spec() == self.attempt_spec()
                && c.host_spec() == self.host_spec() && c.port_spec() == self.port_spec()
                && c.sleep_spec() == self.sleep_spec() && c.max_tries_spec()
                == self.max_tries_spec()),
            forall|statuses: Seq<i32>|
                statuses.len() > 0 && statuses[0] == status && self.attempts_spec() < usize::MAX
                    ==> #[trigger] drive(self.attempts_spec() as nat, self.max_tries_spec(), statuses)
                    == (match r {
                    ConnectStep::Connected(_) => ((self.attempts_spec() + 1) as nat, true),
                    ConnectStep::Failed(_) => ((self.attempts_spec() + 1) as nat, false),
                    ConnectStep::Retry(c) => drive(
                        c.attempts_spec() as nat,
                        c.max_tries_spec(),
                        statuses.drop_first(),
                    ),
                }),
    {
        if status == 0 {
            return ConnectStep::Connected(self.desc.with_transport(Installed::Native));
        }
        let made: usize = if self.attempts < usize::MAX {
            self.attempts + 1
        } else {
            self.attempts
        };
        match self.max_tries {
            Some(n) => {
                if n == 0 || self.attempts >= n - 1 {
                    return ConnectStep::Failed(ConnectionError::ConnectionFailed);
                }
            },
            None => {},
        }
        ConnectStep::Retry(
            Connecting {
                desc: self.desc,
                attempt: self.attempt,
                host: self.host,
                port: self.port,
                sleep_ms: self.sleep_ms,
                max_tries: self.max_tries,
                attempts: made,
            },
        )
    }
}

/// The error with which setting up a native connection is refused, if any:
/// a transport is already installed, the host or the port holds a NUL byte
/// (reported at its first one, host first), or no attempt at all is allowed.
pub open spec fn setup_error(
    installed: Installed,
    host: Seq<u8>,
    port: Seq<u8>,
    max_tries: Option<usize>,
) -> Option<ConnectionError> {
    if installed != Installed::Nothing {
        Some(ConnectionError::Configuration)
    } else if first_nul(host) is Some {
        Some(ConnectionError::Nul(first_nul(host)->0))
    } else if first_nul(port) is Some {
        Some(ConnectionError::Nul(first_nul(port)->0))
    } else if max_tries == Some(0usize) {
        Some(ConnectionError::ConnectionFailed)
    } else {
        None
    }
}

/// `r` is the outcome of setting up a native connection of `d` with the
/// given call, address and retry policy: the setup error if there is one,
/// else a fresh `Connecting` that holds exactly these.
pub open spec fn prepared(
    r: Result<Connecting, ConnectionError>,
    d: ProtocolDesc,
    attempt: Attempt,
    host: Seq<u8>,
    port: Seq<u8>,
    sleep_ms: u64,
    max_tries: Option<usize>,
) -> bool {
    match setup_error(d.installed_spec(), host, port, max_tries) {
        Some(e) => r == Err::<Connecting, ConnectionError>(e),
        None => r matches Ok(c) && c.desc_spec() == d && c.attempt_spec() == attempt
            && c.host_spec() == host && c.port_spec() == port && c.sleep_spec() == sleep_ms
            && c.max_tries_spec() == max_tries && c.attempts_spec() == 0,
    }
}

impl Connecting {
    fn prepare(
        d: ProtocolDesc,
        attempt: Attempt,
        host: &[u8],
        port: &[u8],
        sleep_ms: u64,
        max_tries: Option<usize>,
    ) -> (r: Result<Connecting, ConnectionError>)
        ensures
            prepared(r, d, attempt, host@, port@, sleep_ms, max_tries),
    {
        match d.installed() {
            Installed::Nothing => {},
            _ => {
                return Err(ConnectionError::Configuration);
            },
        }
        match find_nul(host) {
            Some(i) => {
                return Err(ConnectionError::Nul(i));
            },
            None => {},
        }
        match find_nul(port) {
            Some(i) => {
                return Err(ConnectionError::Nul(i));
            },
            None => {},
        }
        match max_tries {
            Some(n) => {
                if n == 0 {
                    return Err(ConnectionError::ConnectionFailed);
                }
            },
            None => {},
        }
        Ok(
            Connecting {
                desc: d,
                attempt,
                host: slice_to_vec(host),
                port: slice_to_vec(port),
                sleep_ms,
                max_tries,
                attempts: 0,
            },
        )
    }
}

impl ProtocolDesc {
    /// Prepares to accept one inbound native connection on `port`, in a
    /// single attempt. Refused with `Configuration` if a transport is
    /// installed, and with `Nul` at the first NUL byte of `port`.
    pub fn accept(self, port: &str) -> (r: Result<Connecting, ConnectionError>)
        ensures
            prepared(r, self, Attempt::Accept, Seq::empty(), port.spec_bytes(), 0, Some(1usize)),
    {
        let host: Vec<u8> = Vec::new();
        proof {
            assert(host@ =~= Seq::<u8>::empty());
        }
        Connecting::prepare(self, Attempt::Accept, host.as_slice(), port.as_bytes(), 0, Some(1))
    }

    /// Prepares to connect to `host:port` natively, making at most
    /// `num_tries` attempts (`None`: until one succeeds) and sleeping
    /// `sleep_ms` milliseconds between them.
    pub fn connect_loop(
        self,
        host: &str,
        port: &str,
        sleep_ms: u64,
        num_tries: Option<usize>,
    ) -> (r: Result<Connecting, ConnectionError>)
        ensures
            prepared(
                r,
                self,
                Attempt::Connect,
                host.spec_bytes(),
                port.spec_bytes(),
                sleep_ms,
                num_tries,
            ),
    {
        Connecting::prepare(self, Attempt::Connect, host.as_bytes(), port.as_bytes(), sleep_ms, num_tries)
    }

    /// Prepares to connect to `host:port` natively, in a single attempt.
    pub fn connect(self, host: &str, port: &str) -> (r: Result<Connecting, ConnectionError>)
        ensures
            prepared(
                r,
                self,
                Attempt::Connect,
                host.spec_bytes(),
                port.spec_bytes(),
                0,
                Some(1usize),
            ),
    {
        self.connect_loop(host, port, 0, Some(1))
    }

    /// Prepares to connect to `host:port` natively in a single attempt.
    pub fn connect_once(self, host: &str, port: &str) -> (r: Result<Connecting, ConnectionError>)
        ensures
            prepared(
                r,
                self,
                Attempt::Connect,
                host.spec_bytes(),
                port.spec_bytes(),
                0,
                Some(1usize),
            ),
    {
        self.connect_loop(host, port, 0, Some(1))
    }
}

} // verus!
