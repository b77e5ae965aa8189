//! Preparation of the log preset query: every contract address is validated,
//! and the block range is taken to the wire's unsigned form.

use vstd::prelude::*;
use crate::address::{address_outcome, validate_address, AddressFault};
use crate::codec::{bits_as_u64, i64_to_u64_bits};

verus! {

/// The arguments of a log query, ready for the request executor.
#[derive(Clone, Debug)]
pub struct LogQueryArgs {
    pub addresses: Vec<[u8; 32]>,
    pub from_block: u64,
    pub to_block: Option<u64>,
}

/// The first address of the list that failed validation, and why.
#[derive(Clone, Debug, PartialEq, Eq)]
pub struct InvalidAddress {
    pub address: String,
    pub fault: AddressFault,
}

/// Whether every address of the list validates.
pub open spec fn all_addresses_valid(c: Seq<String>) -> bool {
    forall|i: int| 0 <= i < c.len() ==> (#[trigger] address_outcome(c[i]@)) is Ok
}

/// Whether `a` holds the validated bytes of each address, in order.
pub open spec fn addresses_decoded(a: Seq<[u8; 32]>, c: Seq<String>) -> bool {
    a.len() == c.len() && forall|i: int|
        0 <= i < c.len() ==> Ok::<Seq<u8>, AddressFault>(#[trigger] a[i]@) == address_outcome(c[i]@)
}

/// Whether `e` reports the first invalid address of `c`.
pub open spec fn first_invalid(e: InvalidAddress, c: Seq<String>) -> bool {
    exists|i: int|
        0 <= i < c.len() && all_addresses_valid(c.subrange(0, i)) && e.address@ == c[i]@
            && address_outcome(c[i]@) == Err::<Seq<u8>, AddressFault>(e.fault)
}

/// Validates the addresses of a log query in order and converts its block
/// range. The first invalid address ends the call with its error; no partial
/// result is returned.
pub fn preset_query_get_logs_args(
    emitting_contracts: &Vec<String>,
    from_block: i64,
    to_block: Option<i64>,
) -> (r: Result<LogQueryArgs, InvalidAddress>)
    ensures
        r is Ok <==> all_addresses_valid(emitting_contracts@),
        r is Ok ==> {
            let a = r->Ok_0;
            &&& addresses_decoded(a.addresses@, emitting_contracts@)
            &&& a.from_block == bits_as_u64(from_block)
            &&& match to_block {
                Some(t) => a.to_block == Some(bits_as_u64(t)),
                None => a.to_block is None,
            }
        },
        r is Err ==> first_invalid(r->Err_0, emitting_contracts@),
{
    let mut addresses: Vec<[u8; 32]> = Vec::new();
    let mut i: usize = 0;
    while i < emitting_contracts.len()
        invariant
            i <= emitting_contracts@.len(),
            addresses@.len() == i,
            forall|k: int|
                0 <= k < i ==> Ok::<Seq<u8>, AddressFault>(#[trigger] addresses@[k]@) == address_outcome(
                    emitting_contracts@[k]@,
                ),
        decreases emitting_contracts@.len() - i,
    {
        match validate_address(emitting_contracts[i].as_str()) {
            Ok(a) => addresses.push(a),
            Err(fault) => {
                let e = InvalidAddress { address: emitting_contracts[i].clone(), fault };
                proof {
                    let c = emitting_contracts@;
                    assert forall|k: int| 0 <= k < i implies (#[trigger] address_outcome(
                        c.subrange(0, i as int)[k]@,
                    )) is Ok by {
                        assert(c.subrange(0, i as int)[k] == c[k]);
                        assert(Ok::<Seq<u8>, AddressFault>(addresses@[k]@) == address_outcome(c[k]@));
                    }
                    assert(!all_addresses_valid(c)) by {
                        assert(!(address_outcome(c[i as int]@) is Ok));
                    }
                }
                return Err(e);
            },
        }
        i = i + 1;
    }
    proof {
        assert forall|k: int| 0 <= k < emitting_contracts@.len() implies (
        #[trigger] address_outcome(emitting_contracts@[k]@)) is Ok by {
            assert(Ok::<Seq<u8>, AddressFault>(addresses@[k]@) == address_outcome(emitting_contracts@[k]@));
        }
    }
    let to = match to_block {
        Some(t) => Some(i64_to_u64_bits(t)),
        None => None,
    };
    Ok(LogQueryArgs { addresses, from_block: i64_to_u64_bits(from_block), to_block: to })
}

} // verus!
