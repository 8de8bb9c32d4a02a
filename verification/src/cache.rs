//! The cache handle and its validity/fetch/persist cycle.
//!
//! A [`Tote`] binds a backing-file path and a maximum age (in milliseconds)
//! to one cached value type. The handle itself is stateless between calls:
//! the backing file is the only persisted entity, and its age — the time
//! since its last modification — is the sole freshness signal.
//!
//! The handle cannot touch the file system itself; instead it decides. A
//! `get` run is a short dialogue between the host and the handle: the handle
//! names the next piece of file system or fetch work as a [`GetStep`], the
//! host performs it and hands the observation back, and the handle takes
//! every decision in between under a proved contract. The dialogue follows a
//! fixed order — validity check, then read attempt, then (only on a miss)
//! fetch, then (only on a fetched value) write — and every failure while
//! reading degrades to a miss, while fetch and write failures surface.

use crate::codec::Codec;
use std::marker::PhantomData;
use vstd::prelude::*;

verus! {

/// The failure kinds a cache operation can surface.
#[derive(Debug, PartialEq, Eq)]
pub enum ToteError {
    /// I/O failed on the backing file; carries the host's description.
    FileAccess(String),
    /// Stored contents could not be decoded as the cached type.
    Serde,
    /// The backing file is missing or older than the configured maximum age.
    InvalidCache,
    /// The fetch strategy failed; carries its message unmodified.
    Fetching(String),
}

/// A strategy for producing a fresh value when the cache cannot.
///
/// The strategy receives no arguments and no cache state; it is invoked at
/// most once per `get` run, and its failure is surfaced to the caller
/// unmodified. Nothing is assumed about which of its outcomes occurs.
pub trait Fetch<T> {
    /// Produce a fresh value, or fail with an opaque message.
    fn fetch() -> Result<T, String>;
}

/// The next piece of outside work in a `get` run, or its outcome.
///
/// The host performs the named work and answers with the corresponding
/// `on_*` transition of [`Tote`]; only `WriteFile` touches the backing file.
pub enum GetStep<T> {
    /// Observe the backing file's age: the milliseconds since its last
    /// modification, or `None` if the file or its metadata cannot be read.
    StatFile,
    /// Read the backing file's full contents as text.
    ReadFile,
    /// Invoke the fetch strategy.
    FetchValue,
    /// Overwrite the backing file with `payload`, which encodes `value`.
    WriteFile {
        /// The exact text to store.
        payload: String,
        /// The freshly fetched value the payload stands for.
        value: T,
    },
    /// The run is over with this outcome.
    Finished(Result<T, ToteError>),
}

/// A file-backed cache for one value of type `T`.
///
/// Holds a file path and a maximum age, both immutable after construction;
/// the cached type is fixed at construction time and no runtime tag is
/// stored in the file.
pub struct Tote<T> {
    path: String,
    max_age_ms: u64,
    _value: PhantomData<T>,
}

impl<T> Tote<T> {
    /// The configured backing-file path.
    pub closed spec fn spec_path(&self) -> Seq<char> {
        self.path@
    }

    /// The configured maximum age in milliseconds.
    pub closed spec fn spec_max_age_ms(&self) -> u64 {
        self.max_age_ms
    }

    /// Whether a backing file of the observed age may be trusted: the file
    /// exists (its age could be observed) and is no older than the maximum
    /// age, the boundary counting as fresh.
    pub open spec fn valid_at(&self, age_ms: Option<u64>) -> bool {
        match age_ms {
            Some(age) => age <= self.spec_max_age_ms(),
            None => false,
        }
    }

    /// Create a cache handle for a backing file and an expiry age. Stores
    /// both verbatim; never touches the file system.
    pub fn new(path: String, max_age_ms: u64) -> (t: Self)
        ensures
            t.spec_path() == path@,
            t.spec_max_age_ms() == max_age_ms,
    {
        Tote { path, max_age_ms, _value: PhantomData }
    }

    /// The backing-file path this handle was constructed with.
    pub fn path(&self) -> (p: &String)
        ensures
            p@ == self.spec_path(),
    {
        &self.path
    }

    /// The maximum age this handle was constructed with, in milliseconds.
    pub fn max_age_ms(&self) -> (m: u64)
        ensures
            m == self.spec_max_age_ms(),
    {
        self.max_age_ms
    }

    /// Is a backing file of the observed age valid? `age_ms` is the host's
    /// observation: milliseconds since the file was last modified, or `None`
    /// if the file, its metadata, or the clock could not be read — every
    /// such error counts as invalid, never as a fault.
    pub fn is_valid(&self, age_ms: Option<u64>) -> (r: bool)
        ensures
            r == self.valid_at(age_ms),
    {
        match age_ms {
            Some(age) => age <= self.max_age_ms,
            None => false,
        }
    }
}

impl<T: Codec> Tote<T> {
    /// The step a `get` run takes after the age observation: read a valid
    /// file, refetch everything else.
    pub open spec fn stat_step(&self, age_ms: Option<u64>) -> GetStep<T> {
        if self.valid_at(age_ms) {
            GetStep::ReadFile
        } else {
            GetStep::FetchValue
        }
    }

    /// What a `get` run does with the observed file contents: finish with
    /// the stored value if they decode, otherwise degrade to a miss and
    /// fetch — read and decode failures are recovered, never surfaced.
    pub open spec fn read_step_ok(&self, contents: Result<String, String>, s: GetStep<T>) -> bool {
        match contents {
            Ok(c) => match T::dec(c@) {
                Some(w) => s matches GetStep::Finished(r) && r matches Ok(v) && v@ == w,
                None => s == GetStep::<T>::FetchValue,
            },
            Err(_) => s == GetStep::<T>::FetchValue,
        }
    }

    /// What a `get` run does with the fetch outcome: stage a fetched value
    /// as a write of exactly its encoding, surface a fetch failure
    /// unmodified without staging any write.
    pub open spec fn fetch_step_ok(&self, fetched: Result<T, String>, s: GetStep<T>) -> bool {
        match fetched {
            Ok(v) => s matches GetStep::WriteFile { payload, value } && payload@ == T::enc(v@)
                && value == v,
            Err(e) => s == GetStep::Finished(Err::<T, ToteError>(ToteError::Fetching(e))),
        }
    }

    /// What a `get` run does with the write outcome: return the freshly
    /// fetched value if the write succeeded; otherwise fail, discarding the
    /// value rather than masking the persistence problem.
    pub open spec fn write_step(&self, value: T, result: Result<(), String>) -> GetStep<T> {
        match result {
            Ok(_) => GetStep::Finished(Ok(value)),
            Err(m) => GetStep::Finished(Err(ToteError::FileAccess(m))),
        }
    }

    /// Begin a `get` run: the first thing consulted is the file's age.
    pub fn get_start(&self) -> (s: GetStep<T>)
        ensures
            s == GetStep::<T>::StatFile,
    {
        GetStep::StatFile
    }

    /// Continue a `get` run with the observed file age.
    pub fn on_stat(&self, age_ms: Option<u64>) -> (s: GetStep<T>)
        ensures
            s == self.stat_step(age_ms),
    {
        if self.is_valid(age_ms) {
            GetStep::ReadFile
        } else {
            GetStep::FetchValue
        }
    }

    /// Continue a `get` run with the observed file contents (`Err` carries
    /// the host's description of a read failure).
    pub fn on_read(&self, contents: Result<String, String>) -> (s: GetStep<T>)
        ensures
            self.read_step_ok(contents, s),
    {
        match contents {
            Ok(c) => match T::decode(c.as_str()) {
                Some(v) => GetStep::Finished(Ok(v)),
                None => GetStep::FetchValue,
            },
            Err(_) => GetStep::FetchValue,
        }
    }

    /// Continue a `get` run with the fetch strategy's outcome.
    pub fn on_fetched(&self, fetched: Result<T, String>) -> (s: GetStep<T>)
        ensures
            self.fetch_step_ok(fetched, s),
    {
        match fetched {
            Ok(v) => {
                let payload = v.encode();
                GetStep::WriteFile { payload, value: v }
            },
            Err(e) => GetStep::Finished(Err(ToteError::Fetching(e))),
        }
    }

    /// Finish a `get` run with the write outcome (`Err` carries the host's
    /// description of the write failure). `value` is the fetched value the
    /// staged `WriteFile` step carried.
    pub fn on_written(&self, value: T, result: Result<(), String>) -> (s: GetStep<T>)
        ensures
            s == self.write_step(value, result),
    {
        match result {
            Ok(_) => GetStep::Finished(Ok(value)),
            Err(m) => GetStep::Finished(Err(ToteError::FileAccess(m))),
        }
    }

    /// The outcome of a bare `read`: an invalid file is reported as such
    /// without consulting the contents; a valid one yields its decoded
    /// value, or the distinct read/decode failure kind.
    pub fn read(&self, age_ms: Option<u64>, contents: Result<String, String>) -> (r: Result<
        T,
        ToteError,
    >)
        ensures
            !self.valid_at(age_ms) ==> r == Err::<T, ToteError>(ToteError::InvalidCache),
            self.valid_at(age_ms) ==> match contents {
                Ok(c) => match T::dec(c@) {
                    Some(w) => r matches Ok(v) && v@ == w,
                    None => r == Err::<T, ToteError>(ToteError::Serde),
                },
                Err(m) => r == Err::<T, ToteError>(ToteError::FileAccess(m)),
            },
    {
        if !self.is_valid(age_ms) {
            return Err(ToteError::InvalidCache);
        }
        match contents {
            Ok(c) => match T::decode(c.as_str()) {
                Some(v) => Ok(v),
                None => Err(ToteError::Serde),
            },
            Err(m) => Err(ToteError::FileAccess(m)),
        }
    }

    /// The exact text a `put` of `value` stores: the host writes this
    /// payload to the backing file in one pass, creating or truncating it.
    pub fn put(&self, value: &T) -> (payload: String)
        ensures
            payload@ == T::enc(value@),
    {
        value.encode()
    }

    /// Round trip: a payload produced by `put(v)`, read back while the
    /// backing file is still within its expiry window, decodes to exactly
    /// `v`'s value — so `read` returns it and `get` finishes with it.
    pub proof fn lemma_put_then_read(&self, v: T, age_ms: Option<u64>, payload: String)
        requires
            self.valid_at(age_ms),
            payload@ == T::enc(v@),
        ensures
            T::dec(payload@) == Some(v@),
            self.stat_step(age_ms) == GetStep::<T>::ReadFile,
    {
        T::lemma_round_trip(v@);
    }

    /// Freshness boundary: a file aged exactly the maximum is still valid;
    /// one strictly older is not, and its `get` run goes to the fetch step.
    pub proof fn lemma_freshness_boundary(&self, age_ms: u64)
        ensures
            age_ms == self.spec_max_age_ms() ==> self.valid_at(Some(age_ms)),
            age_ms > self.spec_max_age_ms() ==> !self.valid_at(Some(age_ms)),
            age_ms > self.spec_max_age_ms() ==> self.stat_step(Some(age_ms))
                == GetStep::<T>::FetchValue,
    {
    }

    /// Fast path purity: over a valid and decodable backing file, a `get`
    /// run goes stat, read, finished-with-the-stored-value; no step of the
    /// run stages a write, so the file and its timestamp are untouched.
    pub proof fn lemma_fast_path(
        &self,
        age_ms: Option<u64>,
        contents: Result<String, String>,
        s: GetStep<T>,
    )
        requires
            self.valid_at(age_ms),
            contents matches Ok(c) && T::dec(c@) is Some,
            self.read_step_ok(contents, s),
        ensures
            self.stat_step(age_ms) == GetStep::<T>::ReadFile,
            s matches GetStep::Finished(r) && r matches Ok(v) && Some(v@) == T::dec(
                contents->Ok_0@,
            ),
            !(s is WriteFile),
    {
    }

    /// A miss refills the cache: with no trustworthy backing file the run
    /// fetches, a fetched value is staged as a write of exactly its
    /// encoding, a successful write returns it — and once stored, any later
    /// in-window read decodes to the same value without fetching again.
    pub proof fn lemma_miss_refills(
        &self,
        age_ms: Option<u64>,
        fetched: Result<T, String>,
        s: GetStep<T>,
        later_age_ms: Option<u64>,
    )
        requires
            !self.valid_at(age_ms),
            fetched is Ok,
            self.fetch_step_ok(fetched, s),
            self.valid_at(later_age_ms),
        ensures
            self.stat_step(age_ms) == GetStep::<T>::FetchValue,
            s matches GetStep::WriteFile { payload, value } && value == fetched->Ok_0 && T::dec(
                payload@,
            ) == Some(value@),
            self.write_step(fetched->Ok_0, Ok(())) == GetStep::Finished(Ok(fetched->Ok_0)),
            self.stat_step(later_age_ms) == GetStep::<T>::ReadFile,
    {
        T::lemma_round_trip(fetched->Ok_0@);
    }

    /// A corrupt backing file degrades to a miss: fresh but undecodable
    /// contents send the run to the fetch step; it neither finishes nor
    /// surfaces a decode failure there.
    pub proof fn lemma_corrupt_degrades(
        &self,
        age_ms: Option<u64>,
        contents: Result<String, String>,
        s: GetStep<T>,
    )
        requires
            self.valid_at(age_ms),
            contents matches Ok(c) && T::dec(c@) is None,
            self.read_step_ok(contents, s),
        ensures
            s == GetStep::<T>::FetchValue,
            !(s is Finished),
    {
    }

    /// A fetch failure propagates untouched: the run finishes with the
    /// strategy's message passed through unmodified, and no write is ever
    /// staged, so a missing backing file stays missing.
    pub proof fn lemma_fetch_failure_propagates(&self, fetched: Result<T, String>, s: GetStep<T>)
        requires
            fetched is Err,
            self.fetch_step_ok(fetched, s),
        ensures
            s == GetStep::Finished(Err::<T, ToteError>(ToteError::Fetching(fetched->Err_0))),
            !(s is WriteFile),
    {
    }
}

impl<T: Codec> Tote<T> {
    /// Resolve a miss in one move: invoke the fetch strategy `F` once and
    /// take the decision on its outcome. Whatever the strategy returned, the
    /// result is either a staged write of exactly the encoded fresh value,
    /// or the run finishing with the fetch failure passed through.
    pub fn resolve_miss<F: Fetch<T>>(&self) -> (s: GetStep<T>)
        ensures
            s is WriteFile || s is Finished,
            s matches GetStep::WriteFile { payload, value } ==> payload@ == T::enc(value@),
            s matches GetStep::Finished(r) ==> r matches Err(e) && e is Fetching,
    {
        self.on_fetched(F::fetch())
    }
}

} // verus!
