//! Queries as callers write them, their canonical form, and the field-by-field
//! mapping between the two.

use vstd::prelude::*;
use vstd::utf8::encode_utf8;
use crate::address::{decode_hex_32, digits_decode, hex_decoded};
use crate::codec::{
    decimal_chars, digit_string_to_u64, hex_chars, hex_encode, lemma_digit_string_round_trip,
    lenient_u64, push_char, u64_to_digit_string,
};

verus! {

/// Receipt filter as callers write it. Hashes and addresses are `0x`-prefixed
/// hex strings; register values are decimal strings.
#[derive(Clone, Debug, Default)]
pub struct ReceiptSelection {
    pub root_contract_id: Option<Vec<String>>,
    pub to_address: Option<Vec<String>>,
    pub asset_id: Option<Vec<String>>,
    pub receipt_type: Option<Vec<u8>>,
    pub sender: Option<Vec<String>>,
    pub recipient: Option<Vec<String>>,
    pub contract_id: Option<Vec<String>>,
    pub ra: Option<Vec<String>>,
    pub rb: Option<Vec<String>>,
    pub rc: Option<Vec<String>>,
    pub rd: Option<Vec<String>>,
}

/// Input filter as callers write it.
#[derive(Clone, Debug, Default)]
pub struct InputSelection {
    pub owner: Option<Vec<String>>,
    pub asset_id: Option<Vec<String>>,
    pub contract: Option<Vec<String>>,
    pub sender: Option<Vec<String>>,
    pub recipient: Option<Vec<String>>,
    pub input_type: Option<Vec<u8>>,
}

/// Output filter as callers write it.
#[derive(Clone, Debug, Default)]
pub struct OutputSelection {
    pub to: Option<Vec<String>>,
    pub asset_id: Option<Vec<String>>,
    pub contract: Option<Vec<String>>,
    pub output_type: Option<Vec<u8>>,
}

/// The columns to return for each kind of record.
#[derive(Clone, Debug, Default)]
pub struct FieldSelection {
    pub block: Option<Vec<String>>,
    pub transaction: Option<Vec<String>>,
    pub receipt: Option<Vec<String>>,
    pub input: Option<Vec<String>>,
    pub output: Option<Vec<String>>,
}

/// A query as callers write it.
#[derive(Clone, Debug, Default)]
pub struct Query {
    /// The first block of the range (inclusive).
    pub from_block: i64,
    /// The end of the range (exclusive); absent means up to the chain head.
    pub to_block: Option<i64>,
    pub receipts: Option<Vec<ReceiptSelection>>,
    pub inputs: Option<Vec<InputSelection>>,
    pub outputs: Option<Vec<OutputSelection>>,
    pub include_all_blocks: Option<bool>,
    pub field_selection: FieldSelection,
    /// Soft cap on the number of blocks returned.
    pub max_num_blocks: Option<i64>,
    /// Soft cap on the number of transactions returned.
    pub max_num_transactions: Option<i64>,
}

/// Canonical receipt filter: 32-byte hashes and `u64` register values.
#[derive(Clone, Debug, Default)]
pub struct NetReceiptSelection {
    pub root_contract_id: Vec<[u8; 32]>,
    pub to_address: Vec<[u8; 32]>,
    pub asset_id: Vec<[u8; 32]>,
    pub receipt_type: Vec<u8>,
    pub sender: Vec<[u8; 32]>,
    pub recipient: Vec<[u8; 32]>,
    pub contract_id: Vec<[u8; 32]>,
    pub ra: Vec<u64>,
    pub rb: Vec<u64>,
    pub rc: Vec<u64>,
    pub rd: Vec<u64>,
}

/// Canonical input filter.
#[derive(Clone, Debug, Default)]
pub struct NetInputSelection {
    pub owner: Vec<[u8; 32]>,
    pub asset_id: Vec<[u8; 32]>,
    pub contract: Vec<[u8; 32]>,
    pub sender: Vec<[u8; 32]>,
    pub recipient: Vec<[u8; 32]>,
    pub input_type: Vec<u8>,
}

/// Canonical output filter.
#[derive(Clone, Debug, Default)]
pub struct NetOutputSelection {
    pub to: Vec<[u8; 32]>,
    pub asset_id: Vec<[u8; 32]>,
    pub contract: Vec<[u8; 32]>,
    pub output_type: Vec<u8>,
}

/// Canonical column selection.
#[derive(Clone, Debug, Default)]
pub struct NetFieldSelection {
    pub block: Vec<String>,
    pub transaction: Vec<String>,
    pub receipt: Vec<String>,
    pub input: Vec<String>,
    pub output: Vec<String>,
}

/// The canonical query handed to the request executor.
#[derive(Clone, Debug, Default)]
pub struct NetQuery {
    pub from_block: u64,
    pub to_block: Option<u64>,
    pub receipts: Vec<NetReceiptSelection>,
    pub inputs: Vec<NetInputSelection>,
    pub outputs: Vec<NetOutputSelection>,
    pub include_all_blocks: bool,
    pub field_selection: NetFieldSelection,
    pub max_num_blocks: Option<u64>,
    pub max_num_transactions: Option<u64>,
}

/// A caller query that has no canonical form: a negative block number or
/// cap, a hash that is not `0x` and 64 hex digits, or (back from the
/// canonical form) a number above `i64::MAX`.
#[derive(Clone, Copy, Debug, PartialEq, Eq)]
pub struct MalformedQuery;

// ---------------------------------------------------------------------------
// The model of the mapping.

/// The 32 bytes of a canonical hash string: `0x`, then 64 hex digits.
pub open spec fn hash_outcome(s: Seq<char>) -> Option<Seq<u8>> {
    let b = encode_utf8(s);
    if b.len() >= 2 && b[0] == 48 && b[1] == 120 && digits_decode(b.subrange(2, b.len() as int)) {
        Some(hex_decoded(b.subrange(2, b.len() as int)))
    } else {
        None
    }
}

/// The canonical string of a 32-byte hash.
pub open spec fn hash_text(a: Seq<u8>) -> Seq<char> {
    seq!['0', 'x'] + hex_chars(a)
}

pub open spec fn hash_list_converts(v: Option<Vec<String>>) -> bool {
    match v {
        None => true,
        Some(l) => forall|i: int| 0 <= i < l@.len() ==> (#[trigger] hash_outcome(l@[i]@)) is Some,
    }
}

pub open spec fn hash_list_matches(r: Vec<[u8; 32]>, v: Option<Vec<String>>) -> bool {
    match v {
        None => r@.len() == 0,
        Some(l) => r@.len() == l@.len() && forall|i: int|
            0 <= i < l@.len() ==> Some(#[trigger] r@[i]@) == hash_outcome(l@[i]@),
    }
}

pub open spec fn registers_match(r: Vec<u64>, v: Option<Vec<String>>) -> bool {
    match v {
        None => r@.len() == 0,
        Some(l) => r@.len() == l@.len() && forall|i: int|
            0 <= i < l@.len() ==> #[trigger] r@[i] == lenient_u64(l@[i]@),
    }
}

pub open spec fn codes_match(r: Vec<u8>, v: Option<Vec<u8>>) -> bool {
    match v {
        None => r@.len() == 0,
        Some(l) => r@ == l@,
    }
}

pub open spec fn same_texts(r: Vec<String>, l: Vec<String>) -> bool {
    r@.len() == l@.len() && forall|i: int| 0 <= i < l@.len() ==> #[trigger] r@[i]@ == l@[i]@
}

pub open spec fn names_match(r: Vec<String>, v: Option<Vec<String>>) -> bool {
    match v {
        None => r@.len() == 0,
        Some(l) => same_texts(r, l),
    }
}

pub open spec fn count_converts(o: Option<i64>) -> bool {
    match o {
        None => true,
        Some(x) => x >= 0,
    }
}

pub open spec fn count_matches(r: Option<u64>, o: Option<i64>) -> bool {
    match o {
        None => r is None,
        Some(x) => r == Some(x as u64),
    }
}

impl ReceiptSelection {
    pub open spec fn spec_converts(&self) -> bool {
        &&& hash_list_converts(self.root_contract_id)
        &&& hash_list_converts(self.to_address)
        &&& hash_list_converts(self.asset_id)
        &&& hash_list_converts(self.sender)
        &&& hash_list_converts(self.recipient)
        &&& hash_list_converts(self.contract_id)
    }
}

impl NetReceiptSelection {
    /// Whether this is the canonical form of `s`.
    pub open spec fn of(&self, s: ReceiptSelection) -> bool {
        &&& hash_list_matches(self.root_contract_id, s.root_contract_id)
        &&& hash_list_matches(self.to_address, s.to_address)
        &&& hash_list_matches(self.asset_id, s.asset_id)
        &&& codes_match(self.receipt_type, s.receipt_type)
        &&& hash_list_matches(self.sender, s.sender)
        &&& hash_list_matches(self.recipient, s.recipient)
        &&& hash_list_matches(self.contract_id, s.contract_id)
        &&& registers_match(self.ra, s.ra)
        &&& registers_match(self.rb, s.rb)
        &&& registers_match(self.rc, s.rc)
        &&& registers_match(self.rd, s.rd)
    }
}

impl InputSelection {
    pub open spec fn spec_converts(&self) -> bool {
        &&& hash_list_converts(self.owner)
        &&& hash_list_converts(self.asset_id)
        &&& hash_list_converts(self.contract)
        &&& hash_list_converts(self.sender)
        &&& hash_list_converts(self.recipient)
    }
}

impl NetInputSelection {
    /// Whether this is the canonical form of `s`.
    pub open spec fn of(&self, s: InputSelection) -> bool {
        &&& hash_list_matches(self.owner, s.owner)
        &&& hash_list_matches(self.asset_id, s.asset_id)
        &&& hash_list_matches(self.contract, s.contract)
        &&& hash_list_matches(self.sender, s.sender)
        &&& hash_list_matches(self.recipient, s.recipient)
        &&& codes_match(self.input_type, s.input_type)
    }
}

impl OutputSelection {
    pub open spec fn spec_converts(&self) -> bool {
        &&& hash_list_converts(self.to)
        &&& hash_list_converts(self.asset_id)
        &&& hash_list_converts(self.contract)
    }
}

impl NetOutputSelection {
    /// Whether this is the canonical form of `s`.
    pub open spec fn of(&self, s: OutputSelection) -> bool {
        &&& hash_list_matches(self.to, s.to)
        &&& hash_list_matches(self.asset_id, s.asset_id)
        &&& hash_list_matches(self.contract, s.contract)
        &&& codes_match(self.output_type, s.output_type)
    }
}

impl NetFieldSelection {
    /// Whether this is the canonical form of `s`: absent lists become empty.
    pub open spec fn of(&self, s: FieldSelection) -> bool {
        &&& names_match(self.block, s.block)
        &&& names_match(self.transaction, s.transaction)
        &&& names_match(self.receipt, s.receipt)
        &&& names_match(self.input, s.input)
        &&& names_match(self.output, s.output)
    }
}

pub open spec fn all_receipts_convert(s: Seq<ReceiptSelection>) -> bool {
    forall|i: int| 0 <= i < s.len() ==> #[trigger] s[i].spec_converts()
}

pub open spec fn receipts_convert(v: Option<Vec<ReceiptSelection>>) -> bool {
    match v {
        None => true,
        Some(l) => all_receipts_convert(l@),
    }
}

pub open spec fn receipts_match(r: Vec<NetReceiptSelection>, v: Option<Vec<ReceiptSelection>>) -> bool {
    match v {
        None => r@.len() == 0,
        Some(l) => r@.len() == l@.len() && forall|i: int|
            0 <= i < l@.len() ==> (#[trigger] r@[i]).of(l@[i]),
    }
}

pub open spec fn all_inputs_convert(s: Seq<InputSelection>) -> bool {
    forall|i: int| 0 <= i < s.len() ==> #[trigger] s[i].spec_converts()
}

pub open spec fn inputs_convert(v: Option<Vec<InputSelection>>) -> bool {
    match v {
        None => true,
        Some(l) => all_inputs_convert(l@),
    }
}

pub open spec fn inputs_match(r: Vec<NetInputSelection>, v: Option<Vec<InputSelection>>) -> bool {
    match v {
        None => r@.len() == 0,
        Some(l) => r@.len() == l@.len() && forall|i: int|
            0 <= i < l@.len() ==> (#[trigger] r@[i]).of(l@[i]),
    }
}

pub open spec fn all_outputs_convert(s: Seq<OutputSelection>) -> bool {
    forall|i: int| 0 <= i < s.len() ==> #[trigger] s[i].spec_converts()
}

pub open spec fn outputs_convert(v: Option<Vec<OutputSelection>>) -> bool {
    match v {
        None => true,
        Some(l) => all_outputs_convert(l@),
    }
}

pub open spec fn outputs_match(r: Vec<NetOutputSelection>, v: Option<Vec<OutputSelection>>) -> bool {
    match v {
        None => r@.len() == 0,
        Some(l) => r@.len() == l@.len() && forall|i: int|
            0 <= i < l@.len() ==> (#[trigger] r@[i]).of(l@[i]),
    }
}

impl Query {
    /// Whether the query has a canonical form.
    pub open spec fn spec_converts(&self) -> bool {
        &&& self.from_block >= 0
        &&& count_converts(self.to_block)
        &&& receipts_convert(self.receipts)
        &&& inputs_convert(self.inputs)
        &&& outputs_convert(self.outputs)
        &&& count_converts(self.max_num_blocks)
        &&& count_converts(self.max_num_transactions)
    }
}

impl NetQuery {
    /// Whether this is the canonical form of `q`.
    pub open spec fn of(&self, q: Query) -> bool {
        &&& self.from_block == q.from_block as u64
        &&& count_matches(self.to_block, q.to_block)
        &&& receipts_match(self.receipts, q.receipts)
        &&& inputs_match(self.inputs, q.inputs)
        &&& outputs_match(self.outputs, q.outputs)
        &&& self.include_all_blocks == (q.include_all_blocks == Some(true))
        &&& self.field_selection.of(q.field_selection)
        &&& count_matches(self.max_num_blocks, q.max_num_blocks)
        &&& count_matches(self.max_num_transactions, q.max_num_transactions)
    }
}

// ---------------------------------------------------------------------------
// Caller form to canonical form.

fn parse_hash(s: &str) -> (r: Option<[u8; 32]>)
    ensures
        match r {
            Some(a) => hash_outcome(s@) == Some(a@),
            None => hash_outcome(s@) is None,
        },
{
    let b = s.as_bytes();
    if b.len() >= 2 && b[0] == 48u8 && b[1] == 120u8 {
        let (_, rest) = b.split_at(2);
        proof {
            assert(rest@ =~= b@.subrange(2, b@.len() as int));
        }
        match decode_hex_32(rest) {
            Ok(a) => Some(a),
            Err(_) => None,
        }
    } else {
        None
    }
}

fn convert_hashes(v: &Option<Vec<String>>) -> (r: Option<Vec<[u8; 32]>>)
    ensures
        r is Some <==> hash_list_converts(*v),
        r is Some ==> hash_list_matches(r->Some_0, *v),
{
    match v {
        None => Some(Vec::new()),
        Some(l) => {
            let mut out: Vec<[u8; 32]> = Vec::new();
            let mut i: usize = 0;
            while i < l.len()
                invariant
                    i <= l@.len(),
                    *v == Some(*l),
                    out@.len() == i,
                    forall|k: int| 0 <= k < i ==> Some(#[trigger] out@[k]@) == hash_outcome(l@[k]@),
                decreases l@.len() - i,
            {
                match parse_hash(l[i].as_str()) {
                    Some(a) => out.push(a),
                    None => {
                        proof {
                            assert(hash_outcome(l@[i as int]@) is None);
                            assert(*v == Some(*l));
                            assert(!hash_list_converts(*v));
                        }
                        return None;
                    },
                }
                i = i + 1;
            }
            proof {
                assert forall|k: int| 0 <= k < l@.len() implies (#[trigger] hash_outcome(
                    l@[k]@,
                )) is Some by {
                    assert(Some(out@[k]@) == hash_outcome(l@[k]@));
                }
            }
            Some(out)
        },
    }
}

fn convert_registers(v: &Option<Vec<String>>) -> (r: Vec<u64>)
    ensures
        registers_match(r, *v),
{
    let mut out: Vec<u64> = Vec::new();
    match v {
        None => {},
        Some(l) => {
            let mut i: usize = 0;
            while i < l.len()
                invariant
                    i <= l@.len(),
                    out@.len() == i,
                    forall|k: int| 0 <= k < i ==> #[trigger] out@[k] == lenient_u64(l@[k]@),
                decreases l@.len() - i,
            {
                out.push(digit_string_to_u64(l[i].as_str()));
                i = i + 1;
            }
        },
    }
    out
}

fn copy_codes(v: &Option<Vec<u8>>) -> (r: Vec<u8>)
    ensures
        codes_match(r, *v),
{
    let mut out: Vec<u8> = Vec::new();
    match v {
        None => {},
        Some(l) => {
            let mut i: usize = 0;
            while i < l.len()
                invariant
                    i <= l@.len(),
                    out@ == l@.subrange(0, i as int),
                decreases l@.len() - i,
            {
                out.push(l[i]);
                i = i + 1;
                proof {
                    assert(out@ =~= l@.subrange(0, i as int));
                }
            }
            proof {
                assert(out@ =~= l@);
            }
        },
    }
    out
}

fn copy_texts(l: &Vec<String>) -> (r: Vec<String>)
    ensures
        same_texts(r, *l),
{
    let mut out: Vec<String> = Vec::new();
    let mut i: usize = 0;
    while i < l.len()
        invariant
            i <= l@.len(),
            out@.len() == i,
            forall|k: int| 0 <= k < i ==> #[trigger] out@[k]@ == l@[k]@,
        decreases l@.len() - i,
    {
        out.push(l[i].clone());
        i = i + 1;
    }
    out
}

fn copy_names(v: &Option<Vec<String>>) -> (r: Vec<String>)
    ensures
        names_match(r, *v),
{
    match v {
        None => Vec::new(),
        Some(l) => copy_texts(l),
    }
}

fn convert_count(o: Option<i64>) -> (r: Option<Option<u64>>)
    ensures
        r is Some <==> count_converts(o),
        r is Some ==> count_matches(r->Some_0, o),
{
    match o {
        None => Some(None),
        Some(x) => if x >= 0 {
            Some(Some(x as u64))
        } else {
            None
        },
    }
}

impl ReceiptSelection {
    /// The canonical form of this filter, if every hash in it is `0x` and 64
    /// hex digits. Register values are read leniently.
    pub fn to_net(&self) -> (r: Option<NetReceiptSelection>)
        ensures
            r is Some <==> self.spec_converts(),
            r is Some ==> r->Some_0.of(*self),
    {
        let root_contract_id = match convert_hashes(&self.root_contract_id) {
            Some(v) => v,
            None => return None,
        };
        let to_address = match convert_hashes(&self.to_address) {
            Some(v) => v,
            None => return None,
        };
        let asset_id = match convert_hashes(&self.asset_id) {
            Some(v) => v,
            None => return None,
        };
        let sender = match convert_hashes(&self.sender) {
            Some(v) => v,
            None => return None,
        };
        let recipient = match convert_hashes(&self.recipient) {
            Some(v) => v,
            None => return None,
        };
        let contract_id = match convert_hashes(&self.contract_id) {
            Some(v) => v,
            None => return None,
        };
        Some(
            NetReceiptSelection {
                root_contract_id,
                to_address,
                asset_id,
                receipt_type: copy_codes(&self.receipt_type),
                sender,
                recipient,
                contract_id,
                ra: convert_registers(&self.ra),
                rb: convert_registers(&self.rb),
                rc: convert_registers(&self.rc),
                rd: convert_registers(&self.rd),
            },
        )
    }
}

impl InputSelection {
    /// The canonical form of this filter, if every hash in it is `0x` and 64
    /// hex digits.
    pub fn to_net(&self) -> (r: Option<NetInputSelection>)
        ensures
            r is Some <==> self.spec_converts(),
            r is Some ==> r->Some_0.of(*self),
    {
        let owner = match convert_hashes(&self.owner) {
            Some(v) => v,
            None => return None,
        };
        let asset_id = match convert_hashes(&self.asset_id) {
            Some(v) => v,
            None => return None,
        };
        let contract = match convert_hashes(&self.contract) {
            Some(v) => v,
            None => return None,
        };
        let sender = match convert_hashes(&self.sender) {
            Some(v) => v,
            None => return None,
        };
        let recipient = match convert_hashes(&self.recipient) {
            Some(v) => v,
            None => return None,
        };
        Some(
            NetInputSelection {
                owner,
                asset_id,
                contract,
                sender,
                recipient,
                input_type: copy_codes(&self.input_type),
            },
        )
    }
}

impl OutputSelection {
    /// The canonical form of this filter, if every hash in it is `0x` and 64
    /// hex digits.
    pub fn to_net(&self) -> (r: Option<NetOutputSelection>)
        ensures
            r is Some <==> self.spec_converts(),
            r is Some ==> r->Some_0.of(*self),
    {
        let to = match convert_hashes(&self.to) {
            Some(v) => v,
            None => return None,
        };
        let asset_id = match convert_hashes(&self.asset_id) {
            Some(v) => v,
            None => return None,
        };
        let contract = match convert_hashes(&self.contract) {
            Some(v) => v,
            None => return None,
        };
        Some(NetOutputSelection { to, asset_id, contract, output_type: copy_codes(&self.output_type) })
    }
}

impl FieldSelection {
    /// The canonical column selection: absent lists become empty.
    pub fn to_net(&self) -> (r: NetFieldSelection)
        ensures
            r.of(*self),
    {
        NetFieldSelection {
            block: copy_names(&self.block),
            transaction: copy_names(&self.transaction),
            receipt: copy_names(&self.receipt),
            input: copy_names(&self.input),
            output: copy_names(&self.output),
        }
    }
}

fn convert_receipts(v: &Option<Vec<ReceiptSelection>>) -> (r: Option<Vec<NetReceiptSelection>>)
    ensures
        r is Some <==> receipts_convert(*v),
        r is Some ==> receipts_match(r->Some_0, *v),
{
    let mut out: Vec<NetReceiptSelection> = Vec::new();
    match v {
        None => Some(out),
        Some(l) => {
            let mut i: usize = 0;
            while i < l.len()
                invariant
                    i <= l@.len(),
                    *v == Some(*l),
                    out@.len() == i,
                    forall|k: int| 0 <= k < i ==> (#[trigger] out@[k]).of(l@[k]),
                    forall|k: int| 0 <= k < i ==> #[trigger] l@[k].spec_converts(),
                decreases l@.len() - i,
            {
                match l[i].to_net() {
                    Some(n) => out.push(n),
                    None => {
                        proof {
                            assert(!l@[i as int].spec_converts());
                            assert(*v == Some(*l));
                            assert(exists|k: int| 0 <= k < l@.len() && !#[trigger] l@[k].spec_converts());
                        }
                        return None;
                    },
                }
                i = i + 1;
            }
            Some(out)
        },
    }
}

fn convert_inputs(v: &Option<Vec<InputSelection>>) -> (r: Option<Vec<NetInputSelection>>)
    ensures
        r is Some <==> inputs_convert(*v),
        r is Some ==> inputs_match(r->Some_0, *v),
{
    let mut out: Vec<NetInputSelection> = Vec::new();
    match v {
        None => Some(out),
        Some(l) => {
            let mut i: usize = 0;
            while i < l.len()
                invariant
                    i <= l@.len(),
                    *v == Some(*l),
                    out@.len() == i,
                    forall|k: int| 0 <= k < i ==> (#[trigger] out@[k]).of(l@[k]),
                    forall|k: int| 0 <= k < i ==> #[trigger] l@[k].spec_converts(),
                decreases l@.len() - i,
            {
                match l[i].to_net() {
                    Some(n) => out.push(n),
                    None => {
                        proof {
                            assert(!l@[i as int].spec_converts());
                            assert(*v == Some(*l));
                            assert(exists|k: int| 0 <= k < l@.len() && !#[trigger] l@[k].spec_converts());
                        }
                        return None;
                    },
                }
                i = i + 1;
            }
            Some(out)
        },
    }
}

fn convert_outputs(v: &Option<Vec<OutputSelection>>) -> (r: Option<Vec<NetOutputSelection>>)
    ensures
        r is Some <==> outputs_convert(*v),
        r is Some ==> outputs_match(r->Some_0, *v),
{
    let mut out: Vec<NetOutputSelection> = Vec::new();
    match v {
        None => Some(out),
        Some(l) => {
            let mut i: usize = 0;
            while i < l.len()
                invariant
                    i <= l@.len(),
                    *v == Some(*l),
                    out@.len() == i,
                    forall|k: int| 0 <= k < i ==> (#[trigger] out@[k]).of(l@[k]),
                    forall|k: int| 0 <= k < i ==> #[trigger] l@[k].spec_converts(),
                decreases l@.len() - i,
            {
                match l[i].to_net() {
                    Some(n) => out.push(n),
                    None => {
                        proof {
                            assert(!l@[i as int].spec_converts());
                            assert(*v == Some(*l));
                            assert(exists|k: int| 0 <= k < l@.len() && !#[trigger] l@[k].spec_converts());
                        }
                        return None;
                    },
                }
                i = i + 1;
            }
            Some(out)
        },
    }
}

impl Query {
    /// Normalizes the query into its canonical form, field by field: block
    /// numbers and caps become unsigned, absent lists become empty, hashes
    /// become 32 bytes and register values become `u64` (an unreadable one
    /// becomes zero).
    pub fn try_convert(&self) -> (r: Result<NetQuery, MalformedQuery>)
        ensures
            r is Ok <==> self.spec_converts(),
            r is Ok ==> r->Ok_0.of(*self),
    {
        if self.from_block < 0 {
            return Err(MalformedQuery);
        }
        let to_block = match convert_count(self.to_block) {
            Some(c) => c,
            None => return Err(MalformedQuery),
        };
        let receipts = match convert_receipts(&self.receipts) {
            Some(c) => c,
            None => return Err(MalformedQuery),
        };
        let inputs = match convert_inputs(&self.inputs) {
            Some(c) => c,
            None => return Err(MalformedQuery),
        };
        let outputs = match convert_outputs(&self.outputs) {
            Some(c) => c,
            None => return Err(MalformedQuery),
        };
        let max_num_blocks = match convert_count(self.max_num_blocks) {
            Some(c) => c,
            None => return Err(MalformedQuery),
        };
        let max_num_transactions = match convert_count(self.max_num_transactions) {
            Some(c) => c,
            None => return Err(MalformedQuery),
        };
        let include_all_blocks = match self.include_all_blocks {
            Some(b) => b,
            None => false,
        };
        Ok(
            NetQuery {
                from_block: self.from_block as u64,
                to_block,
                receipts,
                inputs,
                outputs,
                include_all_blocks,
                field_selection: self.field_selection.to_net(),
                max_num_blocks,
                max_num_transactions,
            },
        )
    }
}

// ---------------------------------------------------------------------------
// Canonical form back to caller form.

pub open spec fn hash_texts_of(r: Option<Vec<String>>, v: Vec<[u8; 32]>) -> bool {
    match r {
        None => false,
        Some(l) => l@.len() == v@.len() && forall|i: int|
            0 <= i < v@.len() ==> #[trigger] l@[i]@ == hash_text(v@[i]@),
    }
}

pub open spec fn register_texts_of(r: Option<Vec<String>>, v: Vec<u64>) -> bool {
    match r {
        None => false,
        Some(l) => l@.len() == v@.len() && forall|i: int|
            0 <= i < v@.len() ==> #[trigger] l@[i]@ == decimal_chars(v@[i] as nat),
    }
}

pub open spec fn codes_shown(r: Option<Vec<u8>>, v: Vec<u8>) -> bool {
    match r {
        None => false,
        Some(l) => l@ == v@,
    }
}

pub open spec fn fits_i64(x: u64) -> bool {
    x <= i64::MAX
}

pub open spec fn opt_fits_i64(o: Option<u64>) -> bool {
    match o {
        None => true,
        Some(x) => fits_i64(x),
    }
}

pub open spec fn opt_i64_of(r: Option<i64>, o: Option<u64>) -> bool {
    match o {
        None => r is None,
        Some(x) => r == Some(x as i64),
    }
}

impl NetReceiptSelection {
    /// Whether `s` is the caller form of this filter.
    pub open spec fn shown_as(&self, s: ReceiptSelection) -> bool {
        &&& hash_texts_of(s.root_contract_id, self.root_contract_id)
        &&& hash_texts_of(s.to_address, self.to_address)
        &&& hash_texts_of(s.asset_id, self.asset_id)
        &&& codes_shown(s.receipt_type, self.receipt_type)
        &&& hash_texts_of(s.sender, self.sender)
        &&& hash_texts_of(s.recipient, self.recipient)
        &&& hash_texts_of(s.contract_id, self.contract_id)
        &&& register_texts_of(s.ra, self.ra)
        &&& register_texts_of(s.rb, self.rb)
        &&& register_texts_of(s.rc, self.rc)
        &&& register_texts_of(s.rd, self.rd)
    }
}

fn hash_to_text(a: &[u8; 32]) -> (r: String)
    ensures
        r@ == hash_text(a@),
{
    let mut bytes: Vec<u8> = Vec::new();
    let mut i: usize = 0;
    while i < 32
        invariant
            i <= 32,
            bytes@ == a@.subrange(0, i as int),
        decreases 32 - i,
    {
        bytes.push(a[i]);
        i = i + 1;
        proof {
            assert(bytes@ =~= a@.subrange(0, i as int));
        }
    }
    proof {
        assert(bytes@ =~= a@);
    }
    let hex = hex_encode(&bytes);
    let mut s = String::new();
    push_char(&mut s, '0');
    push_char(&mut s, 'x');
    let mut j: usize = 0;
    let n = hex.as_str().unicode_len();
    while j < n
        invariant
            j <= n,
            n == hex@.len(),
            s@ == seq!['0', 'x'] + hex@.subrange(0, j as int),
            n == 64,
        decreases n - j,
    {
        let c = hex.as_str().get_char(j);
        push_char(&mut s, c);
        j = j + 1;
        proof {
            assert(s@ =~= seq!['0', 'x'] + hex@.subrange(0, j as int));
        }
    }
    proof {
        assert(hex@.subrange(0, n as int) =~= hex@);
    }
    s
}

fn hashes_to_texts(v: &Vec<[u8; 32]>) -> (r: Option<Vec<String>>)
    ensures
        hash_texts_of(r, *v),
{
    let mut out: Vec<String> = Vec::new();
    let mut i: usize = 0;
    while i < v.len()
        invariant
            i <= v@.len(),
            out@.len() == i,
            forall|k: int| 0 <= k < i ==> #[trigger] out@[k]@ == hash_text(v@[k]@),
        decreases v@.len() - i,
    {
        out.push(hash_to_text(&v[i]));
        i = i + 1;
    }
    Some(out)
}

fn registers_to_texts(v: &Vec<u64>) -> (r: Option<Vec<String>>)
    ensures
        register_texts_of(r, *v),
{
    let mut out: Vec<String> = Vec::new();
    let mut i: usize = 0;
    while i < v.len()
        invariant
            i <= v@.len(),
            out@.len() == i,
            forall|k: int| 0 <= k < i ==> #[trigger] out@[k]@ == decimal_chars(v@[k] as nat),
        decreases v@.len() - i,
    {
        out.push(u64_to_digit_string(v[i]));
        i = i + 1;
    }
    Some(out)
}

fn copy_bytes(v: &Vec<u8>) -> (r: Vec<u8>)
    ensures
        r@ == v@,
{
    let mut out: Vec<u8> = Vec::new();
    let mut i: usize = 0;
    while i < v.len()
        invariant
            i <= v@.len(),
            out@ == v@.subrange(0, i as int),
        decreases v@.len() - i,
    {
        out.push(v[i]);
        i = i + 1;
        proof {
            assert(out@ =~= v@.subrange(0, i as int));
        }
    }
    proof {
        assert(out@ =~= v@);
    }
    out
}

impl NetReceiptSelection {
    /// The caller form of this filter: hashes as `0x`-prefixed lowercase hex,
    /// register values as decimal strings, every list present.
    pub fn to_caller(&self) -> (r: ReceiptSelection)
        ensures
            self.shown_as(r),
    {
        ReceiptSelection {
            root_contract_id: hashes_to_texts(&self.root_contract_id),
            to_address: hashes_to_texts(&self.to_address),
            asset_id: hashes_to_texts(&self.asset_id),
            receipt_type: Some(copy_bytes(&self.receipt_type)),
            sender: hashes_to_texts(&self.sender),
            recipient: hashes_to_texts(&self.recipient),
            contract_id: hashes_to_texts(&self.contract_id),
            ra: registers_to_texts(&self.ra),
            rb: registers_to_texts(&self.rb),
            rc: registers_to_texts(&self.rc),
            rd: registers_to_texts(&self.rd),
        }
    }
}

impl NetInputSelection {
    /// Whether `s` is the caller form of this filter.
    pub open spec fn shown_as(&self, s: InputSelection) -> bool {
        &&& hash_texts_of(s.owner, self.owner)
        &&& hash_texts_of(s.asset_id, self.asset_id)
        &&& hash_texts_of(s.contract, self.contract)
        &&& hash_texts_of(s.sender, self.sender)
        &&& hash_texts_of(s.recipient, self.recipient)
        &&& codes_shown(s.input_type, self.input_type)
    }

    /// The caller form of this filter.
    pub fn to_caller(&self) -> (r: InputSelection)
        ensures
            self.shown_as(r),
    {
        InputSelection {
            owner: hashes_to_texts(&self.owner),
            asset_id: hashes_to_texts(&self.asset_id),
            contract: hashes_to_texts(&self.contract),
            sender: hashes_to_texts(&self.sender),
            recipient: hashes_to_texts(&self.recipient),
            input_type: Some(copy_bytes(&self.input_type)),
        }
    }
}

impl NetOutputSelection {
    /// Whether `s` is the caller form of this filter.
    pub open spec fn shown_as(&self, s: OutputSelection) -> bool {
        &&& hash_texts_of(s.to, self.to)
        &&& hash_texts_of(s.asset_id, self.asset_id)
        &&& hash_texts_of(s.contract, self.contract)
        &&& codes_shown(s.output_type, self.output_type)
    }

    /// The caller form of this filter.
    pub fn to_caller(&self) -> (r: OutputSelection)
        ensures
            self.shown_as(r),
    {
        OutputSelection {
            to: hashes_to_texts(&self.to),
            asset_id: hashes_to_texts(&self.asset_id),
            contract: hashes_to_texts(&self.contract),
            output_type: Some(copy_bytes(&self.output_type)),
        }
    }
}

pub open spec fn texts_of(r: Option<Vec<String>>, v: Vec<String>) -> bool {
    match r {
        None => false,
        Some(l) => same_texts(l, v),
    }
}

impl NetFieldSelection {
    /// Whether `s` is the caller form of this selection: every list present.
    pub open spec fn shown_as(&self, s: FieldSelection) -> bool {
        &&& texts_of(s.block, self.block)
        &&& texts_of(s.transaction, self.transaction)
        &&& texts_of(s.receipt, self.receipt)
        &&& texts_of(s.input, self.input)
        &&& texts_of(s.output, self.output)
    }

    /// The caller form of this selection.
    pub fn to_caller(&self) -> (r: FieldSelection)
        ensures
            self.shown_as(r),
    {
        FieldSelection {
            block: Some(copy_texts(&self.block)),
            transaction: Some(copy_texts(&self.transaction)),
            receipt: Some(copy_texts(&self.receipt)),
            input: Some(copy_texts(&self.input)),
            output: Some(copy_texts(&self.output)),
        }
    }
}

pub open spec fn receipts_shown(r: Option<Vec<ReceiptSelection>>, v: Seq<NetReceiptSelection>) -> bool {
    match r {
        None => false,
        Some(l) => l@.len() == v.len() && receipts_shown_at(l@, v),
    }
}

pub open spec fn receipts_shown_at(l: Seq<ReceiptSelection>, v: Seq<NetReceiptSelection>) -> bool {
    forall|i: int| 0 <= i < v.len() ==> #[trigger] v[i].shown_as(l[i])
}

pub open spec fn inputs_shown(r: Option<Vec<InputSelection>>, v: Seq<NetInputSelection>) -> bool {
    match r {
        None => false,
        Some(l) => l@.len() == v.len() && inputs_shown_at(l@, v),
    }
}

pub open spec fn inputs_shown_at(l: Seq<InputSelection>, v: Seq<NetInputSelection>) -> bool {
    forall|i: int| 0 <= i < v.len() ==> #[trigger] v[i].shown_as(l[i])
}

pub open spec fn outputs_shown(r: Option<Vec<OutputSelection>>, v: Seq<NetOutputSelection>) -> bool {
    match r {
        None => false,
        Some(l) => l@.len() == v.len() && outputs_shown_at(l@, v),
    }
}

pub open spec fn outputs_shown_at(l: Seq<OutputSelection>, v: Seq<NetOutputSelection>) -> bool {
    forall|i: int| 0 <= i < v.len() ==> #[trigger] v[i].shown_as(l[i])
}

impl NetQuery {
    /// Whether the query can be shown in caller form: every block number and
    /// cap fits in an `i64`.
    pub open spec fn showable(&self) -> bool {
        &&& fits_i64(self.from_block)
        &&& opt_fits_i64(self.to_block)
        &&& opt_fits_i64(self.max_num_blocks)
        &&& opt_fits_i64(self.max_num_transactions)
    }

    /// Whether `q` is the caller form of this query.
    pub open spec fn shown_as(&self, q: Query) -> bool {
        &&& q.from_block == self.from_block as i64
        &&& opt_i64_of(q.to_block, self.to_block)
        &&& receipts_shown(q.receipts, self.receipts@)
        &&& inputs_shown(q.inputs, self.inputs@)
        &&& outputs_shown(q.outputs, self.outputs@)
        &&& q.include_all_blocks == Some(self.include_all_blocks)
        &&& self.field_selection.shown_as(q.field_selection)
        &&& opt_i64_of(q.max_num_blocks, self.max_num_blocks)
        &&& opt_i64_of(q.max_num_transactions, self.max_num_transactions)
    }
}

fn narrow_count(o: Option<u64>) -> (r: Option<Option<i64>>)
    ensures
        r is Some <==> opt_fits_i64(o),
        r is Some ==> opt_i64_of(r->Some_0, o),
{
    match o {
        None => Some(None),
        Some(x) => if x <= 0x7fff_ffff_ffff_ffff {
            Some(Some(x as i64))
        } else {
            None
        },
    }
}

impl Query {
    /// The caller form of a canonical query, as used to echo a query back:
    /// hashes as `0x`-prefixed lowercase hex, register values in decimal,
    /// every list present. Fails when a block number or cap is above
    /// `i64::MAX`.
    pub fn try_from(q: &NetQuery) -> (r: Result<Query, MalformedQuery>)
        ensures
            r is Ok <==> q.showable(),
            r is Ok ==> q.shown_as(r->Ok_0),
    {
        if q.from_block > 0x7fff_ffff_ffff_ffff {
            return Err(MalformedQuery);
        }
        let to_block = match narrow_count(q.to_block) {
            Some(c) => c,
            None => return Err(MalformedQuery),
        };
        let max_num_blocks = match narrow_count(q.max_num_blocks) {
            Some(c) => c,
            None => return Err(MalformedQuery),
        };
        let max_num_transactions = match narrow_count(q.max_num_transactions) {
            Some(c) => c,
            None => return Err(MalformedQuery),
        };
        let mut receipts: Vec<ReceiptSelection> = Vec::new();
        let mut i: usize = 0;
        while i < q.receipts.len()
            invariant
                i <= q.receipts@.len(),
                receipts@.len() == i,
                forall|k: int| 0 <= k < i ==> #[trigger] q.receipts@[k].shown_as(receipts@[k]),
            decreases q.receipts@.len() - i,
        {
            receipts.push(q.receipts[i].to_caller());
            i = i + 1;
        }
        let mut inputs: Vec<InputSelection> = Vec::new();
        let mut i: usize = 0;
        while i < q.inputs.len()
            invariant
                i <= q.inputs@.len(),
                inputs@.len() == i,
                forall|k: int| 0 <= k < i ==> #[trigger] q.inputs@[k].shown_as(inputs@[k]),
            decreases q.inputs@.len() - i,
        {
            inputs.push(q.inputs[i].to_caller());
            i = i + 1;
        }
        let mut outputs: Vec<OutputSelection> = Vec::new();
        let mut i: usize = 0;
        while i < q.outputs.len()
            invariant
                i <= q.outputs@.len(),
                outputs@.len() == i,
                forall|k: int| 0 <= k < i ==> #[trigger] q.outputs@[k].shown_as(outputs@[k]),
            decreases q.outputs@.len() - i,
        {
            outputs.push(q.outputs[i].to_caller());
            i = i + 1;
        }
        Ok(
            Query {
                from_block: q.from_block as i64,
                to_block,
                receipts: Some(receipts),
                inputs: Some(inputs),
                outputs: Some(outputs),
                include_all_blocks: Some(q.include_all_blocks),
                field_selection: q.field_selection.to_caller(),
                max_num_blocks,
                max_num_transactions,
            },
        )
    }
}

/// Encodes an optional list of decimal register values for the wire: each
/// value becomes a `u64`, read leniently (an unreadable one becomes zero); an
/// absent list stays absent.
pub fn serialize(opt: &Option<Vec<String>>) -> (r: Option<Vec<u64>>)
    ensures
        match opt {
            None => r is None,
            Some(_) => r is Some && registers_match(r->Some_0, *opt),
        },
{
    match opt {
        None => None,
        Some(_) => Some(convert_registers(opt)),
    }
}

/// Decodes an optional list of wire register values into decimal strings; an
/// absent list stays absent.
pub fn deserialize(opt: &Option<Vec<u64>>) -> (r: Option<Vec<String>>)
    ensures
        match opt {
            None => r is None,
            Some(v) => register_texts_of(r, *v),
        },
{
    match opt {
        None => None,
        Some(v) => registers_to_texts(v),
    }
}

/// A register value written as the decimal rendering of a `u64` comes back
/// unchanged when a query is normalized and then shown in caller form again.
pub proof fn lemma_register_echo(s: Seq<char>, u: u64)
    requires
        s == decimal_chars(u as nat),
    ensures
        decimal_chars(lenient_u64(s) as nat) == s,
{
    lemma_digit_string_round_trip(u);
}

/// A query without `to_block` normalizes to a canonical query without an
/// upper bound; the missing bound never makes it malformed.
pub proof fn lemma_open_range(q: Query, n: NetQuery)
    requires
        q.to_block is None,
        n.of(q),
    ensures
        n.to_block is None,
        count_converts(q.to_block),
{
}

} // verus!
