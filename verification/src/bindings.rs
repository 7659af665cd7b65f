//! Declarations for the types and functions of other crates that the library
//! relies on. Each contract here is taken on trust from the named crate.

use crate::types::{decoded, RecoveredTx, Tx};
use rayon::iter::{IntoParallelIterator, ParallelIterator};
use vstd::prelude::*;

verus! {

/// `bytes::Bytes`, a shared buffer of bytes. What it holds is
/// [`bytes_content`].
#[verifier::external_type_specification]
#[verifier::external_body]
pub struct ExBytes(bytes::Bytes);

/// `alloy_primitives::Uint`, an unsigned integer of `BITS` bits; `U256` is
/// the one of 256 bits. Values are carried, never computed with.
#[verifier::external_type_specification]
#[verifier::external_body]
pub struct ExUint<const BITS: usize, const LIMBS: usize>(alloy_primitives::Uint<BITS, LIMBS>);

/// `rayon::ThreadPool`, a set of worker threads.
#[verifier::external_type_specification]
#[verifier::external_body]
pub struct ExThreadPool(rayon::ThreadPool);

/// `rayon::ThreadPoolBuildError`, the reason why a pool did not start.
#[verifier::external_type_specification]
#[verifier::external_body]
pub struct ExThreadPoolBuildError(rayon::ThreadPoolBuildError);

/// `alloy_rpc_types::eth::Filter`, the criteria of a log subscription.
#[verifier::external_type_specification]
#[verifier::external_body]
pub struct ExFilter(alloy_rpc_types::eth::Filter);

/// `serde_json::Error`, a parser's complaint about a document.
#[verifier::external_type_specification]
#[verifier::external_body]
pub struct ExJsonError(serde_json::Error);

/// The bytes that a `bytes::Bytes` buffer holds, in order.
pub uninterp spec fn bytes_content(b: bytes::Bytes) -> Seq<u8>;

/// `bytes::Bytes::new`: a buffer that holds no bytes.
#[verifier::external_body]
pub(crate) fn bytes_empty() -> (b: bytes::Bytes)
    ensures
        bytes_content(b) == Seq::<u8>::empty(),
{
    bytes::Bytes::new()
}

/// `Bytes::from(Vec<u8>)`: a buffer that holds exactly the bytes of `v`.
#[verifier::external_body]
pub(crate) fn bytes_from_vec(v: Vec<u8>) -> (b: bytes::Bytes)
    ensures
        bytes_content(b) == v@,
{
    bytes::Bytes::from(v)
}

/// `serde_json::Error`'s `Display`: the parser's description of what was
/// wrong with a document and where. Nothing is claimed of the text.
#[verifier::external_body]
pub(crate) fn json_error_text(error: &serde_json::Error) -> (text: String) {
    error.to_string()
}

/// `Filter::default` of `alloy_rpc_types::eth`: the filter that a log
/// subscription without criteria is opened with.
#[verifier::external_body]
pub(crate) fn default_filter() -> (filter: alloy_rpc_types::eth::Filter) {
    alloy_rpc_types::eth::Filter::default()
}

/// `rayon::ThreadPoolBuilder::build`, for a pool of at most `num_threads`
/// workers. Whether the workers can be started is up to the machine, so
/// nothing is claimed of the outcome.
#[verifier::external_body]
pub(crate) fn build_pool(num_threads: usize) -> (pool: Result<
    rayon::ThreadPool,
    rayon::ThreadPoolBuildError,
>) {
    rayon::ThreadPoolBuilder::new().num_threads(num_threads).build()
}

/// `rayon::ThreadPool::install` around a parallel `map` and `collect` into a
/// `Vec`: every transaction is decoded by [`Tx::from`] on the pool's
/// workers, and the results stand in the positions of their sources.
#[verifier::external_body]
pub(crate) fn decode_in_pool(pool: &rayon::ThreadPool, sources: Vec<RecoveredTx>) -> (txs: Vec<Tx>)
    ensures
        txs@.len() == sources@.len(),
        forall|i: int| 0 <= i < sources@.len() ==> (#[trigger] txs@[i])@ == decoded(sources@[i]),
{
    pool.install(|| sources.into_par_iter().map(|source| Tx::from(source)).collect())
}

} // verus!
