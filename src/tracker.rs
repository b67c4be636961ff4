use vstd::prelude::*;

verus! {

/// Why a recording could not be registered.
#[derive(Debug, PartialEq, Eq, Clone, Copy)]
pub enum TrackerError {
    /// The login already has a recording in progress.
    AlreadyRecording,
}

/// Proof that a recording of one login was registered; handed back to
/// `RecordingState::release` when the recording ends.
#[derive(Debug)]
pub struct Guard {
    login: String,
}

impl Guard {
    pub closed spec fn login_view(&self) -> Seq<char> {
        self.login@
    }

    pub fn login(&self) -> (r: &String)
        ensures
            r@ == self.login_view(),
    {
        &self.login
    }
}

/// The logins whose recording is in progress.
#[derive(Debug)]
pub struct RecordingState {
    logins: Vec<String>,
}

impl View for RecordingState {
    type V = Set<Seq<char>>;

    closed spec fn view(&self) -> Set<Seq<char>> {
        Set::new(|l: Seq<char>| exists|i: int| 0 <= i < self.logins@.len() && self.logins@[i]@ == l)
    }
}

impl RecordingState {
    /// Each login is held once.
    pub closed spec fn wf(&self) -> bool {
        forall|i: int, j: int|
            0 <= i < j < self.logins@.len() ==> self.logins@[i]@ != self.logins@[j]@
    }

    /// The places at which the state holds a registration of `l`.
    pub closed spec fn registrations(&self, l: Seq<char>) -> Set<int> {
        Set::new(|i: int| 0 <= i < self.logins@.len() && self.logins@[i]@ == l)
    }

    /// The state at startup: nothing is recording, whatever an earlier run
    /// left behind.
    pub fn new() -> (r: Self)
        ensures
            r.wf(),
            r@ == Set::<Seq<char>>::empty(),
    {
        let r = RecordingState { logins: Vec::new() };
        assert(r@ =~= Set::<Seq<char>>::empty());
        r
    }

    /// Whether `login` has a recording in progress.
    pub fn is_recording(&self, login: &String) -> (r: bool)
        ensures
            r == self@.contains(login@),
    {
        let mut i: usize = 0;
        while i < self.logins.len()
            invariant
                0 <= i <= self.logins@.len(),
                forall|k: int| 0 <= k < i ==> self.logins@[k]@ != login@,
            decreases self.logins.len() - i,
        {
            if self.logins[i] == *login {
                return true;
            }
            i = i + 1;
        }
        false
    }

    /// Registers a recording of `login`, refused where one is in progress.
    pub fn begin(&mut self, login: &String) -> (r: Result<Guard, TrackerError>)
        requires
            old(self).wf(),
        ensures
            final(self).wf(),
            old(self)@.contains(login@) ==> r == Err::<Guard, TrackerError>(
                TrackerError::AlreadyRecording,
            ) && final(self)@ == old(self)@,
            !old(self)@.contains(login@) ==> (r matches Ok(g) && g.login_view() == login@
                && final(self)@ == old(self)@.insert(login@)),
    {
        if self.is_recording(login) {
            return Err(TrackerError::AlreadyRecording);
        }
        let ghost before = self.logins@;
        self.logins.push(login.clone());
        assert(self.logins@.drop_last() =~= before);
        assert(self@ =~= old(self)@.insert(login@)) by {
            assert(self.logins@[before.len() as int] == *login);
            assert forall|i: int| 0 <= i < before.len() implies self.logins@[i] == before[i] by {}
        }
        Ok(Guard { login: login.clone() })
    }

    /// Ends the recording that `guard` registered, whatever its outcome.
    pub fn release(&mut self, guard: Guard)
        requires
            old(self).wf(),
        ensures
            final(self).wf(),
            final(self)@ == old(self)@.remove(guard.login_view()),
    {
        let mut i: usize = 0;
        while i < self.logins.len()
            invariant
                0 <= i <= self.logins@.len(),
                forall|k: int| 0 <= k < i ==> self.logins@[k]@ != guard.login@,
                self.logins@ == old(self).logins@,
                self.wf(),
            decreases self.logins.len() - i,
        {
            if self.logins[i] == guard.login {
                let ghost before = self.logins@;
                self.logins.remove(i);
                assert(self.logins@ =~= before.remove(i as int));
                assert forall|a: int, b: int| 0 <= a < b < self.logins@.len() implies self.logins@[a]@
                    != self.logins@[b]@ by {
                    let a0 = if a < i { a } else { a + 1 };
                    let b0 = if b < i { b } else { b + 1 };
                    assert(self.logins@[a] == before[a0] && self.logins@[b] == before[b0]);
                }
                assert(self@ =~= old(self)@.remove(guard.login@)) by {
                    assert forall|l: Seq<char>| old(self)@.remove(guard.login@).contains(l)
                        implies self@.contains(l) by {
                        let j = choose|j: int| 0 <= j < before.len() && before[j]@ == l;
                        assert(j != i);
                        if j < i {
                            assert(self.logins@[j] == before[j]);
                        } else {
                            assert(self.logins@[j - 1] == before[j]);
                        }
                    }
                    assert forall|l: Seq<char>| self@.contains(l)
                        implies old(self)@.remove(guard.login@).contains(l) by {
                        let j = choose|j: int| 0 <= j < self.logins@.len() && self.logins@[j]@ == l;
                        if j < i {
                            assert(before[j] == self.logins@[j]);
                        } else {
                            assert(before[j + 1] == self.logins@[j]);
                        }
                    }
                }
                return;
            }
            i = i + 1;
        }
        assert(self@ =~= old(self)@.remove(guard.login@));
    }
}

/// At any instant a login is registered at most once, and it is registered
/// exactly while it counts as recording. Since `begin` refuses a login that
/// counts as recording, no two recordings of one login hold guards together.
pub proof fn lemma_at_most_one_guard(s: RecordingState, l: Seq<char>)
    requires
        s.wf(),
    ensures
        forall|i: int, j: int|
            s.registrations(l).contains(i) && s.registrations(l).contains(j) ==> i == j,
        s@.contains(l) <==> exists|i: int| s.registrations(l).contains(i),
{
    assert forall|i: int, j: int|
        s.registrations(l).contains(i) && s.registrations(l).contains(j) implies i == j by {
        if i < j {
            assert(s.logins@[i]@ != s.logins@[j]@);
        } else if j < i {
            assert(s.logins@[j]@ != s.logins@[i]@);
        }
    }
    if s@.contains(l) {
        let i = choose|i: int| 0 <= i < s.logins@.len() && s.logins@[i]@ == l;
        assert(s.registrations(l).contains(i));
    }
}

} // verus!
