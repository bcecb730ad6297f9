//! What every backend has in common: the registry of declared names, the
//! contract of `compile`, and how a failure among several parts becomes the
//! failure of the whole.

pub mod js;
pub mod registry;

pub use js::JavascriptBackend;
pub use registry::{NameRegistry, NameRegistryResult, NameRegistryResultView};

use crate::il::block::Block;
use crate::text::concat;
use vstd::prelude::*;

verus! {

/// What lowering gives, over mathematical values: the generated text, or
/// the failure.
pub type Lowered = Result<Seq<char>, NameRegistryResultView>;

/// What `compile` hands back, as a [`Lowered`].
pub open spec fn outcome_view(r: Result<String, NameRegistryResult>) -> Lowered {
    match r {
        Ok(text) => Ok(text@),
        Err(e) => Err(e@),
    }
}

/// Whether `k` is the first position of `results` that holds a failure.
pub open spec fn first_failure_at<T, E>(results: Seq<Result<T, E>>, k: int) -> bool {
    &&& 0 <= k < results.len()
    &&& results[k] is Err
    &&& forall|j: int| 0 <= j < k ==> results[j] is Ok
}

/// The successes of `results` in order where all of them are successes,
/// and otherwise the first failure, left to right.
pub open spec fn collect<T, E>(results: Seq<Result<T, E>>) -> Result<Seq<T>, E> {
    if exists|k: int| first_failure_at(results, k) {
        Err(results[choose|k: int| first_failure_at(results, k)]->Err_0)
    } else {
        Ok(Seq::new(results.len(), |i: int| results[i]->Ok_0))
    }
}

/// The texts of the parts one after the other, or the first failure among
/// them.
pub open spec fn concat_all(parts: Seq<Lowered>) -> Lowered {
    match collect(parts) {
        Ok(texts) => Ok(concat(texts)),
        Err(e) => Err(e),
    }
}

/// The first failure is the failure of the whole, whatever comes after it.
pub proof fn lemma_collect_first_failure<T, E>(results: Seq<Result<T, E>>, k: int)
    requires
        first_failure_at(results, k),
    ensures
        collect(results) == Err::<Seq<T>, E>(results[k]->Err_0),
{
    let c = choose|c: int| first_failure_at(results, c);
    assert(c == k);
}

/// Where no part fails, the whole is the successes in order.
pub proof fn lemma_collect_all_succeed<T, E>(results: Seq<Result<T, E>>)
    requires
        forall|i: int| 0 <= i < results.len() ==> results[i] is Ok,
    ensures
        collect(results) == Ok::<Seq<T>, E>(Seq::new(results.len(), |i: int| results[i]->Ok_0)),
{
    assert(forall|k: int| !first_failure_at(results, k));
}

/// A backend lowers a block to the source text of its target language.
pub trait Backend {
    /// Lowers `b` under the names declared in `ctx`. The block is only read.
    /// Scopes opened while descending are copies of `ctx`: whatever is
    /// declared in them, `ctx` holds afterwards what it held before. An
    /// empty block gives the empty text.
    fn compile(&mut self, b: &Block, ctx: &mut NameRegistry) -> (r: Result<
        String,
        NameRegistryResult,
    >)
        ensures
            final(ctx)@ == old(ctx)@,
            b@.len() == 0 ==> outcome_view(r) == Lowered::Ok(Seq::empty()),
    ;
}

} // verus!
