use crate::dev::mpi::error::{MpiError, MPI_SUCCESS};
use vstd::prelude::*;

verus! {

/// What one test of a completion token told: the flag that the transport
/// set, or the error it reported. A flag other than 0 says that the operation
/// is complete.
pub type Tested = Result<i32, MpiError>;

/// Reads the outcome of one test of a completion token: `ret` is the status
/// code of the test itself, `flag` the flag it set.
pub fn read_test(ret: i32, flag: i32) -> (r: Tested)
    ensures
        ret == MPI_SUCCESS ==> r == Ok::<i32, MpiError>(flag),
        ret != MPI_SUCCESS ==> r is Err && r->Err_0.code() == ret,
{
    match MpiError::check(ret) {
        Ok(_) => Ok(flag),
        Err(e) => Err(e),
    }
}

/// Where the wait for one non-blocking operation stands. The token `R` is
/// whatever the transport hands out for an operation in flight.
///
/// The caller drives it: while the wait is `Pending` it tests the token,
/// reports the outcome with `tested` and, if the wait is still `Pending`,
/// yields to the scheduler before it tests again. No thread is blocked, and
/// nothing ends a wait but completion or an error.
pub enum Wait<R> {
    /// The operation is in flight and its token is to be tested.
    Pending(R),
    /// The wait is over and the token is used up.
    Done(Result<(), MpiError>),
}

impl<R> Wait<R> {
    /// The wait that one test moves this wait to.
    pub open spec fn after(self, tested: Tested) -> Self {
        match self {
            Wait::Pending(req) => match tested {
                Ok(flag) => if flag != 0 {
                    Wait::Done(Ok(()))
                } else {
                    Wait::Pending(req)
                },
                Err(e) => Wait::Done(Err(e)),
            },
            Wait::Done(r) => Wait::Done(r),
        }
    }

    /// The wait that a run of tests moves this wait to.
    pub open spec fn after_all(self, tests: Seq<Tested>) -> Self
        decreases tests.len(),
    {
        if tests.len() == 0 {
            self
        } else {
            self.after(tests.first()).after_all(tests.drop_first())
        }
    }

    /// Starts the wait for the operation that `req` stands for.
    pub fn wait(req: R) -> (w: Self)
        ensures
            w == Wait::Pending(req),
    {
        Wait::Pending(req)
    }

    /// Starts the wait for an operation from what issuing it gave: the token
    /// of the operation in flight, or the error by which the transport
    /// refused it, which ends the wait at once.
    pub fn issued(reply: Result<R, MpiError>) -> (w: Self)
        ensures
            w == match reply {
                Ok(req) => Wait::Pending(req),
                Err(e) => Wait::Done(Err(e)),
            },
    {
        match reply {
            Ok(req) => Wait::Pending(req),
            Err(e) => Wait::Done(Err(e)),
        }
    }

    /// Takes in the outcome of one test of the token. A wait that is over
    /// stays as it is.
    pub fn tested(self, tested: Tested) -> (w: Self)
        ensures
            w == self.after(tested),
    {
        match self {
            Wait::Pending(req) => match tested {
                Ok(flag) => if flag != 0 {
                    Wait::Done(Ok(()))
                } else {
                    Wait::Pending(req)
                },
                Err(e) => Wait::Done(Err(e)),
            },
            Wait::Done(r) => Wait::Done(r),
        }
    }

    /// Whether the wait is over.
    pub fn is_done(&self) -> (r: bool)
        ensures
            r == (*self is Done),
    {
        match self {
            Wait::Pending(_) => false,
            Wait::Done(_) => true,
        }
    }

    /// How the wait ended, if it is over.
    pub fn outcome(&self) -> (r: Option<Result<(), MpiError>>)
        ensures
            r == match *self {
                Wait::Pending(_) => None,
                Wait::Done(res) => Some(res),
            },
    {
        match self {
            Wait::Pending(_) => None,
            Wait::Done(res) => Some(*res),
        }
    }
}

/// Whether a test settles the wait: it does unless it went well and found
/// the operation still in flight.
pub open spec fn settles(tested: Tested) -> bool {
    tested != Ok::<i32, MpiError>(0)
}

/// How a test that settles the wait ends it.
pub open spec fn settled(tested: Tested) -> Result<(), MpiError> {
    match tested {
        Ok(_) => Ok(()),
        Err(e) => Err(e),
    }
}

/// A wait stays pending, with its token, for as long as no test settles it.
pub proof fn lemma_wait_pending<R>(req: R, tests: Seq<Tested>)
    requires
        forall|i: int| 0 <= i < tests.len() ==> !settles(#[trigger] tests[i]),
    ensures
        Wait::Pending(req).after_all(tests) == Wait::Pending(req),
    decreases tests.len(),
{
    if tests.len() > 0 {
        assert(!settles(tests[0]));
        assert forall|i: int| 0 <= i < tests.drop_first().len() implies !settles(
            #[trigger] tests.drop_first()[i],
        ) by {
            assert(tests.drop_first()[i] == tests[i + 1]);
        }
        lemma_wait_pending(req, tests.drop_first());
    }
}

/// A wait that is over takes no notice of further tests.
pub proof fn lemma_wait_done<R>(res: Result<(), MpiError>, tests: Seq<Tested>)
    ensures
        Wait::<R>::Done(res).after_all(tests) == Wait::<R>::Done(res),
    decreases tests.len(),
{
    if tests.len() > 0 {
        lemma_wait_done::<R>(res, tests.drop_first());
    }
}

/// A wait ends with the first test that settles it, and as that test says:
/// well if the test found the operation complete, with the test's error if
/// the test failed. What is tested afterwards changes nothing.
pub proof fn lemma_wait_ends_at_first_settling<R>(req: R, tests: Seq<Tested>, first: int)
    requires
        0 <= first < tests.len(),
        settles(tests[first]),
        forall|i: int| 0 <= i < first ==> !settles(#[trigger] tests[i]),
    ensures
        Wait::Pending(req).after_all(tests) == Wait::<R>::Done(settled(tests[first])),
    decreases tests.len(),
{
    let rest = tests.drop_first();
    if first == 0 {
        lemma_wait_done::<R>(settled(tests[0]), rest);
    } else {
        assert(!settles(tests[0]));
        assert(rest[first - 1] == tests[first]);
        assert forall|i: int| 0 <= i < first - 1 implies !settles(#[trigger] rest[i]) by {
            assert(rest[i] == tests[i + 1]);
        }
        lemma_wait_ends_at_first_settling(req, rest, first - 1);
    }
}

} // verus!
