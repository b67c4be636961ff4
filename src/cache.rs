use vstd::prelude::*;

verus! {

/// The instant at which a value computed at `now` stops being served:
/// `now + ttl`, held at the largest instant.
pub open spec fn expiry_of(now: u64, ttl: u64) -> u64 {
    if now as int + ttl as int > u64::MAX as int {
        u64::MAX
    } else {
        (now + ttl) as u64
    }
}

/// A one-slot cache whose value is served for a fixed time after it was
/// computed. Instants are whole seconds on a clock of the caller's choosing.
pub struct ExpiringCache<T> {
    entry: Option<(T, u64)>,
    ttl: u64,
}

impl<T> ExpiringCache<T> {
    /// The cached value and the instant it expires, if one was stored.
    pub closed spec fn entry(&self) -> Option<(T, u64)> {
        self.entry
    }

    pub closed spec fn time_to_live(&self) -> u64 {
        self.ttl
    }

    /// Whether a lookup at `now` is served from the cache.
    pub open spec fn fresh_at(&self, now: u64) -> bool {
        self.entry() is Some && now < self.entry()->Some_0.1
    }

    /// An empty cache whose values live `ttl` seconds.
    pub fn new(ttl: u64) -> (r: Self)
        ensures
            r.entry() is None,
            r.time_to_live() == ttl,
    {
        ExpiringCache { entry: None, ttl }
    }

    pub fn ttl(&self) -> (r: u64)
        ensures
            r == self.time_to_live(),
    {
        self.ttl
    }

    /// Whether a lookup at `now` would be served without computing.
    pub fn is_fresh(&self, now: u64) -> (r: bool)
        ensures
            r == self.fresh_at(now),
    {
        match &self.entry {
            Some((_, expiry)) => now < *expiry,
            None => false,
        }
    }

    /// The stored value, fresh or not.
    pub fn value(&self) -> (r: Option<&T>)
        ensures
            match r {
                Some(v) => self.entry() is Some && *v == self.entry()->Some_0.0,
                None => self.entry() is None,
            },
    {
        match &self.entry {
            Some((v, _)) => Some(v),
            None => None,
        }
    }

    /// Makes the cache hold a fresh value at `now`. Where the stored value is
    /// fresh it is kept and `producer` is not called (`Ok(false)`). Otherwise
    /// `producer` is called once: its value is stored with expiry
    /// `now + ttl` (`Ok(true)`), or its error is handed back and nothing is
    /// stored.
    pub fn get_or_compute<E, F: FnOnce() -> Result<T, E>>(&mut self, now: u64, producer: F) -> (r:
        Result<bool, E>)
        requires
            !old(self).fresh_at(now) ==> producer.requires(()),
        ensures
            final(self).time_to_live() == old(self).time_to_live(),
            old(self).fresh_at(now) ==> (r matches Ok(false) && final(self).entry() == old(
                self,
            ).entry()),
            !old(self).fresh_at(now) ==> exists|res: Result<T, E>|
                #![trigger producer.ensures((), res)]
                producer.ensures((), res) && match res {
                    Ok(v) => (r matches Ok(true) && final(self).entry() == Some(
                        (v, expiry_of(now, old(self).time_to_live())),
                    )),
                    Err(e) => r == Err::<bool, E>(e) && final(self).entry() == old(self).entry(),
                },
    {
        if self.is_fresh(now) {
            return Ok(false);
        }
        let res = producer();
        match res {
            Ok(v) => {
                let expiry = if now > u64::MAX - self.ttl {
                    u64::MAX
                } else {
                    now + self.ttl
                };
                self.entry = Some((v, expiry));
                Ok(true)
            },
            Err(e) => Err(e),
        }
    }
}

/// A value stored at `stored_at` is served, without calling the producer,
/// at every later instant less than `ttl` after it, and computed anew at
/// every instant `ttl` or more after it.
pub proof fn lemma_served_within_ttl<T>(c: ExpiringCache<T>, v: T, stored_at: u64, now: u64)
    requires
        c.entry() == Some((v, expiry_of(stored_at, c.time_to_live()))),
        stored_at <= now,
        stored_at as int + c.time_to_live() as int <= u64::MAX as int,
    ensures
        now < stored_at + c.time_to_live() ==> c.fresh_at(now),
        now >= stored_at + c.time_to_live() ==> !c.fresh_at(now),
{
}

} // verus!
