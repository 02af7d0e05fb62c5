//! The cache-aside retrieval of one document, as a protocol between this
//! library, which decides, and its caller, which does the outside work.
//!
//! A `Retrieval` says in its phase what the caller has to do next. The caller
//! does it and reports the outcome as an `Event`; `step` answers with the next
//! phase. The cache is an optimisation and never a source of truth: whatever
//! goes wrong on the cache path leads to the network, not to a failure.

use vstd::prelude::*;

use crate::error::{DDragonClientError, Reply};

verus! {

/// What the caller of a retrieval has to do next.
#[derive(Debug)]
pub enum Phase<T> {
    /// Read the cache directory under the key `url`.
    ReadCache,
    /// Decode these cached bytes into the document.
    DecodeCached { bytes: Vec<u8> },
    /// Request `url` from the network.
    Request,
    /// Decode this response text into the document.
    Decode { text: String },
    /// Write `text` to the cache directory under the key `url`, best effort,
    /// and report back whatever came of it.
    Store { text: String, value: T },
    /// Nothing: the retrieval has ended with this result.
    Done { result: Result<T, DDragonClientError> },
}

/// The outcome of the work that a phase asked for.
#[derive(Debug)]
pub enum Event<T> {
    /// The cache was read: the bytes found, or `None` on a miss or any failure.
    CacheRead(Option<Vec<u8>>),
    /// A decode was attempted.
    Decoded(Result<T, serde_json::Error>),
    /// The transport answered.
    Replied(Reply),
    /// The cache write was attempted; its outcome is of no interest.
    Stored,
}

/// One retrieval in progress.
#[derive(Debug)]
pub struct Retrieval<T> {
    /// The full request address, which is also the cache key.
    pub url: String,
    /// The cache directory, or `None` where nothing is cached.
    pub cache_dir: Option<String>,
    /// What the caller has to do next.
    pub phase: Phase<T>,
}

/// What the world outside would answer to each piece of work that one
/// retrieval can ask for. It exists to state what a retrieval owes; no code
/// builds one.
pub struct Surroundings<T> {
    /// What reading the cache under the address finds.
    pub found: Option<Vec<u8>>,
    /// What decoding the bytes found gives.
    pub found_decodes: Result<T, serde_json::Error>,
    /// What the transport answers for the address.
    pub reply: Reply,
    /// What decoding the body of that answer gives.
    pub body_decodes: Result<T, serde_json::Error>,
}

impl<T> Surroundings<T> {
    /// Whether a cache under `cache` serves the document: there is a cache, it
    /// holds bytes under the address, and they decode.
    pub open spec fn serves(self, cache: Option<String>) -> bool {
        cache is Some && self.found is Some && self.found_decodes is Ok
    }

    /// What the network path ends in: the decoded body, or the error of the
    /// step that failed.
    pub open spec fn fetched(self) -> Result<T, DDragonClientError> {
        match self.reply {
            Reply::Body(_) => match self.body_decodes {
                Ok(value) => Ok(value),
                Err(e) => Err(DDragonClientError::JSONParse(e)),
            },
            Reply::RequestFailed(why) => Err(DDragonClientError::Request(why)),
            Reply::BodyUnreadable(why) => Err(DDragonClientError::Parse(why)),
        }
    }

    /// What cache-aside retrieval owes: the cached document where the cache
    /// serves it, and what the network path ends in everywhere else.
    pub open spec fn owed(self, cache: Option<String>) -> Result<T, DDragonClientError> {
        if self.serves(cache) {
            match self.found_decodes {
                Ok(value) => Ok(value),
                Err(e) => Err(DDragonClientError::JSONParse(e)),
            }
        } else {
            self.fetched()
        }
    }
}

/// The text of a cache directory, where there is one.
pub open spec fn dir_text(dir: Option<String>) -> Option<Seq<char>> {
    match dir {
        Some(d) => Some(d@),
        None => None,
    }
}

impl<T> Retrieval<T> {
    /// Whether this is the retrieval of the address `url`, with the cache
    /// directory `cache`, before anything was done.
    pub open spec fn starts(self, url: Seq<char>, cache: Option<Seq<char>>) -> bool {
        &&& self.url@ == url
        &&& dir_text(self.cache_dir) == cache
        &&& self.phase == if cache is Some {
            Phase::<T>::ReadCache
        } else {
            Phase::<T>::Request
        }
    }

    /// Whether the next work is a request to the network. No other phase asks
    /// for one.
    pub open spec fn asks_network(self) -> bool {
        self.phase is Request
    }

    /// The retrieval of `url` before anything was done: it starts at the cache
    /// where there is one, and at the network where there is none.
    pub open spec fn begin(url: String, cache_dir: Option<String>) -> Retrieval<T> {
        Retrieval {
            url,
            cache_dir,
            phase: if cache_dir is Some {
                Phase::ReadCache
            } else {
                Phase::Request
            },
        }
    }

    /// Whether `event` reports the work that the current phase asked for.
    pub open spec fn awaits(self, event: Event<T>) -> bool {
        match self.phase {
            Phase::ReadCache => event is CacheRead,
            Phase::DecodeCached { .. } => event is Decoded,
            Phase::Request => event is Replied,
            Phase::Decode { .. } => event is Decoded,
            Phase::Store { .. } => event is Stored,
            Phase::Done { .. } => false,
        }
    }

    /// The phase that follows the current one on `event`.
    pub open spec fn next_phase(self, event: Event<T>) -> Phase<T> {
        match (self.phase, event) {
            (Phase::ReadCache, Event::CacheRead(Some(bytes))) => Phase::DecodeCached { bytes },
            (Phase::ReadCache, Event::CacheRead(None)) => Phase::Request,
            (Phase::DecodeCached { .. }, Event::Decoded(Ok(value))) => Phase::Done {
                result: Ok(value),
            },
            (Phase::DecodeCached { .. }, Event::Decoded(Err(_))) => Phase::Request,
            (Phase::Request, Event::Replied(Reply::Body(text))) => Phase::Decode { text },
            (Phase::Request, Event::Replied(Reply::RequestFailed(why))) => Phase::Done {
                result: Err(DDragonClientError::Request(why)),
            },
            (Phase::Request, Event::Replied(Reply::BodyUnreadable(why))) => Phase::Done {
                result: Err(DDragonClientError::Parse(why)),
            },
            (Phase::Decode { text }, Event::Decoded(Ok(value))) => if self.cache_dir is Some {
                Phase::Store { text, value }
            } else {
                Phase::Done { result: Ok(value) }
            },
            (Phase::Decode { .. }, Event::Decoded(Err(e))) => Phase::Done {
                result: Err(DDragonClientError::JSONParse(e)),
            },
            (Phase::Store { value, .. }, Event::Stored) => Phase::Done { result: Ok(value) },
            (phase, _) => phase,
        }
    }

    /// The retrieval after `event`: the address and the cache directory never
    /// change, and an event that the phase did not ask for changes nothing.
    pub open spec fn after(self, event: Event<T>) -> Retrieval<T> {
        Retrieval { url: self.url, cache_dir: self.cache_dir, phase: self.next_phase(event) }
    }

    /// A retrieval touches the cache only where a cache directory is set.
    pub open spec fn wf(self) -> bool {
        (self.phase is ReadCache || self.phase is DecodeCached || self.phase is Store)
            ==> self.cache_dir is Some
    }

    /// How many reports a retrieval in this phase can take at most before it
    /// has ended.
    pub open spec fn remaining(self) -> nat {
        match self.phase {
            Phase::ReadCache => 5,
            Phase::DecodeCached { .. } => 4,
            Phase::Request => 3,
            Phase::Decode { .. } => 2,
            Phase::Store { .. } => 1,
            Phase::Done { .. } => 0,
        }
    }

    /// The report that the surroundings give for the work of this phase.
    pub open spec fn report(self, world: Surroundings<T>) -> Event<T> {
        match self.phase {
            Phase::ReadCache => Event::CacheRead(world.found),
            Phase::DecodeCached { .. } => Event::Decoded(world.found_decodes),
            Phase::Request => Event::Replied(world.reply),
            Phase::Decode { .. } => Event::Decoded(world.body_decodes),
            Phase::Store { .. } => Event::Stored,
            Phase::Done { .. } => Event::Stored,
        }
    }

    /// The retrieval after a caller did the work asked for and reported it,
    /// `rounds` times over or until the retrieval ended.
    pub open spec fn drive(self, world: Surroundings<T>, rounds: nat) -> Retrieval<T>
        decreases rounds,
    {
        if rounds == 0 || self.is_done() {
            self
        } else {
            self.after(self.report(world)).drive(world, (rounds - 1) as nat)
        }
    }

    /// How often the network is asked on the way of `drive`.
    pub open spec fn requests(self, world: Surroundings<T>, rounds: nat) -> nat
        decreases rounds,
    {
        if rounds == 0 || self.is_done() {
            0
        } else {
            let here: nat = if self.asks_network() {
                1
            } else {
                0
            };
            here + self.after(self.report(world)).requests(world, (rounds - 1) as nat)
        }
    }

    /// How often the cache is written on the way of `drive`.
    pub open spec fn writes(self, world: Surroundings<T>, rounds: nat) -> nat
        decreases rounds,
    {
        if rounds == 0 || self.is_done() {
            0
        } else {
            let here: nat = if self.phase is Store {
                1
            } else {
                0
            };
            here + self.after(self.report(world)).writes(world, (rounds - 1) as nat)
        }
    }

    /// Whether the retrieval has ended.
    pub open spec fn is_done(self) -> bool {
        self.phase is Done
    }

    /// Starts the retrieval of `url`.
    pub fn start(url: String, cache_dir: Option<String>) -> (r: Retrieval<T>)
        ensures
            r == Retrieval::<T>::begin(url, cache_dir),
            r.starts(url@, dir_text(cache_dir)),
            r.wf(),
    {
        let phase = if cache_dir.is_some() {
            Phase::ReadCache
        } else {
            Phase::Request
        };
        Retrieval { url, cache_dir, phase }
    }

    /// Takes the outcome of the work that the phase asked for and moves on.
    pub fn step(self, event: Event<T>) -> (r: Retrieval<T>)
        ensures
            r == self.after(event),
            self.wf() ==> r.wf(),
            !self.awaits(event) ==> r == self,
    {
        let Retrieval { url, cache_dir, phase } = self;
        let next = match (phase, event) {
            (Phase::ReadCache, Event::CacheRead(Some(bytes))) => Phase::DecodeCached { bytes },
            (Phase::ReadCache, Event::CacheRead(None)) => Phase::Request,
            (Phase::DecodeCached { .. }, Event::Decoded(Ok(value))) => Phase::Done {
                result: Ok(value),
            },
            (Phase::DecodeCached { .. }, Event::Decoded(Err(_))) => Phase::Request,
            (Phase::Request, Event::Replied(Reply::Body(text))) => Phase::Decode { text },
            (Phase::Request, Event::Replied(Reply::RequestFailed(why))) => Phase::Done {
                result: Err(DDragonClientError::Request(why)),
            },
            (Phase::Request, Event::Replied(Reply::BodyUnreadable(why))) => Phase::Done {
                result: Err(DDragonClientError::Parse(why)),
            },
            (Phase::Decode { text }, Event::Decoded(Ok(value))) => if cache_dir.is_some() {
                Phase::Store { text, value }
            } else {
                Phase::Done { result: Ok(value) }
            },
            (Phase::Decode { .. }, Event::Decoded(Err(e))) => Phase::Done {
                result: Err(DDragonClientError::JSONParse(e)),
            },
            (Phase::Store { value, .. }, Event::Stored) => Phase::Done { result: Ok(value) },
            (phase, _) => phase,
        };
        Retrieval { url, cache_dir, phase: next }
    }

    /// The result of a retrieval that has ended, and the retrieval itself
    /// where it has not.
    pub fn finish(self) -> (r: Result<Result<T, DDragonClientError>, Retrieval<T>>)
        ensures
            match r {
                Ok(result) => self.phase == (Phase::Done { result }),
                Err(same) => !self.is_done() && same == self,
            },
    {
        let Retrieval { url, cache_dir, phase } = self;
        match phase {
            Phase::Done { result } => Ok(result),
            other => Err(Retrieval { url, cache_dir, phase: other }),
        }
    }

    /// A retrieval that is driven to its end is cache-aside retrieval: in
    /// every surroundings it ends, within five rounds, in what is owed; it asks
    /// the network not at all where the cache serves the document and once
    /// where it does not; and it writes the cache once where there is a cache
    /// and the network gave a body that decodes, and never else.
    pub proof fn driven_retrieval_is_cache_aside(
        url: String,
        cache_dir: Option<String>,
        world: Surroundings<T>,
    )
        ensures
            ({
                let start = Retrieval::<T>::begin(url, cache_dir);
                &&& start.drive(world, 5).phase == (Phase::Done { result: world.owed(cache_dir) })
                &&& start.requests(world, 5) == if world.serves(cache_dir) {
                    0nat
                } else {
                    1nat
                }
                &&& start.writes(world, 5) == if cache_dir is Some && !world.serves(cache_dir)
                    && world.fetched() is Ok {
                    1nat
                } else {
                    0nat
                }
            }),
    {
        reveal_with_fuel(Retrieval::drive, 6);
        reveal_with_fuel(Retrieval::requests, 6);
        reveal_with_fuel(Retrieval::writes, 6);
    }

    /// Without a cache directory every retrieval asks the network, exactly
    /// once, and ends in what the network path gives. Two retrievals in the
    /// same surroundings therefore both ask, and end alike.
    pub proof fn uncached_always_requests(url: String, world: Surroundings<T>)
        ensures
            ({
                let start = Retrieval::<T>::begin(url, None);
                &&& start.asks_network()
                &&& start.requests(world, 5) == 1
                &&& start.writes(world, 5) == 0
                &&& start.drive(world, 5).phase == (Phase::Done { result: world.fetched() })
            }),
    {
        Self::driven_retrieval_is_cache_aside(url, None, world);
    }

    /// With a cache directory, bytes found under the address that decode end
    /// the retrieval with the decoded value, and the network is not asked.
    pub proof fn cache_hit_skips_network(
        url: String,
        dir: String,
        world: Surroundings<T>,
        value: T,
    )
        requires
            world.found is Some,
            world.found_decodes == Ok::<T, serde_json::Error>(value),
        ensures
            ({
                let start = Retrieval::<T>::begin(url, Some(dir));
                &&& start.requests(world, 5) == 0
                &&& start.writes(world, 5) == 0
                &&& start.drive(world, 5).phase == (Phase::Done {
                    result: Ok::<T, DDragonClientError>(value),
                })
            }),
    {
        Self::driven_retrieval_is_cache_aside(url, Some(dir), world);
    }

    /// Cached bytes that do not decode, like a miss, are no failure: the
    /// retrieval falls back to the network and ends in what the network path
    /// gives, so it succeeds where the body decodes, and then writes the body
    /// back.
    pub proof fn cache_failure_falls_back(url: String, dir: String, world: Surroundings<T>)
        requires
            world.found is None || world.found_decodes is Err,
        ensures
            ({
                let start = Retrieval::<T>::begin(url, Some(dir));
                &&& start.requests(world, 5) == 1
                &&& start.drive(world, 5).phase == (Phase::Done { result: world.fetched() })
                &&& start.writes(world, 5) == if world.fetched() is Ok {
                    1nat
                } else {
                    0nat
                }
            }),
    {
        Self::driven_retrieval_is_cache_aside(url, Some(dir), world);
    }

    /// On the network path every failure ends the retrieval with its own
    /// error, whatever the document type: a request that fails, a body that
    /// cannot be read, a text that does not decode.
    pub proof fn network_failures_are_final(self, reply: Reply, broken: serde_json::Error)
        ensures
            self.phase is Request ==> match reply {
                Reply::Body(_) => !self.after(Event::Replied(reply)).is_done(),
                _ => self.after(Event::Replied(reply)).phase == (Phase::<T>::Done {
                    result: Err(reply.failure().unwrap()),
                }),
            },
            self.phase is Decode ==> self.after(Event::Decoded(Err(broken))).phase == (
            Phase::<T>::Done { result: Err(DDragonClientError::JSONParse(broken)) }),
    {
    }

    /// Every report that was asked for brings the retrieval closer to its end,
    /// so that a retrieval ends after five reports at most. Nothing is tried
    /// twice: once the network was asked, it is never asked again.
    pub proof fn every_report_advances(self, event: Event<T>)
        ensures
            self.awaits(event) ==> self.after(event).remaining() < self.remaining(),
            self.after(event).remaining() <= self.remaining(),
            self.asks_network() && self.awaits(event) ==> !self.after(event).asks_network(),
            self.remaining() < 3 ==> !self.after(event).asks_network(),
            self.remaining() == 0 <==> self.is_done(),
    {
    }

    /// A retrieval that has ended stays as it is, whatever is reported to it.
    pub proof fn done_is_final(self, event: Event<T>)
        requires
            self.is_done(),
        ensures
            self.after(event) == self,
    {
    }
}

} // verus!
