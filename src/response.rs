//! Decoding of wire records into the typed records shown to callers. Hashes,
//! addresses and data become lowercase hex; heights, counts, indices and times
//! keep their 64-bit pattern as `i64`; amounts, registers, pointers and lengths
//! become exact arbitrary-precision integers. An absent wire field stays absent.

use vstd::prelude::*;
use crate::codec::{
    decimal_chars, hex_chars, hex_encode, hex_fits, hex_len_ok, u64_to_bigint, u64_to_digit_string,
    as_i64, widened, BigInt,
};

verus! {

pub open spec fn hex_of(r: String, b: Vec<u8>) -> bool {
    r@ == hex_chars(b@)
}

pub open spec fn hex_opt_of(r: Option<String>, b: Option<Vec<u8>>) -> bool {
    match (r, b) {
        (Some(x), Some(y)) => hex_of(x, y),
        (None, None) => true,
        _ => false,
    }
}

pub open spec fn hex_list_opt_of(r: Option<Vec<String>>, b: Option<Vec<Vec<u8>>>) -> bool {
    match (r, b) {
        (Some(x), Some(y)) => x@.len() == y@.len() && forall|i: int|
            0 <= i < y@.len() ==> #[trigger] x@[i]@ == hex_chars(y@[i]@),
        (None, None) => true,
        _ => false,
    }
}

pub open spec fn wide_opt_of(r: Option<i64>, u: Option<u64>) -> bool {
    match (r, u) {
        (Some(x), Some(y)) => x as int == widened(y),
        (None, None) => true,
        _ => false,
    }
}

/// `r` is the exact arbitrary-precision form of `u`.
pub open spec fn big_of(r: BigInt, u: u64) -> bool {
    &&& !r.sign_bit
    &&& r.words@ == seq![u]
    &&& r.value() == u as int
}

pub open spec fn big_opt_of(r: Option<BigInt>, u: Option<u64>) -> bool {
    match (r, u) {
        (Some(x), Some(y)) => big_of(x, y),
        (None, None) => true,
        _ => false,
    }
}

pub open spec fn decimal_opt_of(r: Option<String>, u: Option<u64>) -> bool {
    match (r, u) {
        (Some(x), Some(y)) => x@ == decimal_chars(y as nat),
        (None, None) => true,
        _ => false,
    }
}

pub open spec fn text_opt_of(r: Option<String>, t: Option<String>) -> bool {
    match (r, t) {
        (Some(x), Some(y)) => x@ == y@,
        (None, None) => true,
        _ => false,
    }
}

pub open spec fn opt_hex_fits(b: Option<Vec<u8>>) -> bool {
    match b {
        Some(v) => hex_fits(v@),
        None => true,
    }
}

pub open spec fn list_hex_fits(b: Option<Vec<Vec<u8>>>) -> bool {
    match b {
        Some(l) => all_hex_fit(l@),
        None => true,
    }
}

pub open spec fn all_hex_fit(l: Seq<Vec<u8>>) -> bool {
    forall|i: int| 0 <= i < l.len() ==> hex_fits(#[trigger] l[i]@)
}

fn opt_hex_len_ok(b: &Option<Vec<u8>>) -> (r: bool)
    ensures
        r == opt_hex_fits(*b),
{
    match b {
        Some(v) => hex_len_ok(v),
        None => true,
    }
}

fn list_hex_len_ok(b: &Option<Vec<Vec<u8>>>) -> (r: bool)
    ensures
        r == list_hex_fits(*b),
{
    match b {
        None => true,
        Some(l) => {
            let mut i: usize = 0;
            while i < l.len()
                invariant
                    i <= l@.len(),
                    *b == Some(*l),
                    forall|k: int| 0 <= k < i ==> hex_fits(#[trigger] l@[k]@),
                decreases l@.len() - i,
            {
                if !hex_len_ok(&l[i]) {
                    proof {
                        assert(!hex_fits(l@[i as int]@));
                        assert(!all_hex_fit(l@));
                    }
                    return false;
                }
                i = i + 1;
            }
            true
        },
    }
}

fn hex_opt(b: &Option<Vec<u8>>) -> (r: Option<String>)
    requires
        opt_hex_fits(*b),
    ensures
        hex_opt_of(r, *b),
{
    match b {
        Some(v) => Some(hex_encode(v)),
        None => None,
    }
}

fn hex_list_opt(b: &Option<Vec<Vec<u8>>>) -> (r: Option<Vec<String>>)
    requires
        list_hex_fits(*b),
    ensures
        hex_list_opt_of(r, *b),
{
    match b {
        None => None,
        Some(l) => {
            let mut out: Vec<String> = Vec::new();
            let mut i: usize = 0;
            while i < l.len()
                invariant
                    i <= l@.len(),
                    all_hex_fit(l@),
                    out@.len() == i,
                    forall|k: int| 0 <= k < i ==> #[trigger] out@[k]@ == hex_chars(l@[k]@),
                decreases l@.len() - i,
            {
                out.push(hex_encode(&l[i]));
                i = i + 1;
            }
            Some(out)
        },
    }
}

fn widen_opt(u: Option<u64>) -> (r: Option<i64>)
    ensures
        wide_opt_of(r, u),
{
    match u {
        Some(x) => Some(as_i64(x)),
        None => None,
    }
}

fn big_opt(u: Option<u64>) -> (r: Option<BigInt>)
    ensures
        big_opt_of(r, u),
{
    match u {
        Some(x) => Some(u64_to_bigint(x)),
        None => None,
    }
}

fn decimal_opt(u: Option<u64>) -> (r: Option<String>)
    ensures
        decimal_opt_of(r, u),
{
    match u {
        Some(x) => Some(u64_to_digit_string(x)),
        None => None,
    }
}

fn text_opt(t: &Option<String>) -> (r: Option<String>)
    ensures
        text_opt_of(r, *t),
{
    match t {
        Some(s) => Some(s.clone()),
        None => None,
    }
}

/// The header of a block. As received: hashes and data as bytes, numbers as the wire's
/// `u64`.
#[derive(Clone, Debug, Default)]
pub struct WireBlock {
    pub id: Vec<u8>,
    pub da_height: u64,
    pub consensus_parameters_version: u64,
    pub state_transition_bytecode_version: u64,
    pub transactions_count: Vec<u8>,
    pub message_receipt_count: Vec<u8>,
    pub transactions_root: Vec<u8>,
    pub message_outbox_root: Vec<u8>,
    pub event_inbox_root: Vec<u8>,
    pub height: u64,
    pub prev_root: Vec<u8>,
    pub time: u64,
    pub application_hash: Vec<u8>,
}

/// The header of a block. As shown to callers: hashes and data as lowercase hex,
/// heights, counts and indices as bit-reinterpreted `i64`, amounts, registers,
/// pointers and lengths as exact arbitrary-precision integers.
#[derive(Clone, Debug, Default)]
pub struct Block {
    pub id: String,
    pub da_height: i64,
    pub consensus_parameters_version: i64,
    pub state_transition_bytecode_version: i64,
    pub transactions_count: String,
    pub message_receipt_count: String,
    pub transactions_root: String,
    pub message_outbox_root: String,
    pub event_inbox_root: String,
    pub height: i64,
    pub prev_root: String,
    pub time: i64,
    pub application_hash: String,
}

impl WireBlock {
    /// Whether every byte field can be rendered in hex.
    pub open spec fn hex_fits_all(&self) -> bool {
        &&& hex_fits(self.id@)
        &&& hex_fits(self.transactions_count@)
        &&& hex_fits(self.message_receipt_count@)
        &&& hex_fits(self.transactions_root@)
        &&& hex_fits(self.message_outbox_root@)
        &&& hex_fits(self.event_inbox_root@)
        &&& hex_fits(self.prev_root@)
        &&& hex_fits(self.application_hash@)
    }

    /// Whether every byte field can be rendered in hex, computed.
    pub fn check_hex_fits(&self) -> (r: bool)
        ensures
            r == self.hex_fits_all(),
    {
        hex_len_ok(&self.id)
            && hex_len_ok(&self.transactions_count)
            && hex_len_ok(&self.message_receipt_count)
            && hex_len_ok(&self.transactions_root)
            && hex_len_ok(&self.message_outbox_root)
            && hex_len_ok(&self.event_inbox_root)
            && hex_len_ok(&self.prev_root)
            && hex_len_ok(&self.application_hash)
    }
}

impl Block {
    /// Whether this is the decoding of `w`, field by field.
    pub open spec fn decodes(&self, w: WireBlock) -> bool {
        &&& hex_of(self.id, w.id)
        &&& self.da_height as int == widened(w.da_height)
        &&& self.consensus_parameters_version as int == widened(w.consensus_parameters_version)
        &&& self.state_transition_bytecode_version as int == widened(w.state_transition_bytecode_version)
        &&& hex_of(self.transactions_count, w.transactions_count)
        &&& hex_of(self.message_receipt_count, w.message_receipt_count)
        &&& hex_of(self.transactions_root, w.transactions_root)
        &&& hex_of(self.message_outbox_root, w.message_outbox_root)
        &&& hex_of(self.event_inbox_root, w.event_inbox_root)
        &&& self.height as int == widened(w.height)
        &&& hex_of(self.prev_root, w.prev_root)
        &&& self.time as int == widened(w.time)
        &&& hex_of(self.application_hash, w.application_hash)
    }

    /// Decodes a wire record, applying to each field the policy of its kind.
    pub fn from_wire(w: &WireBlock) -> (r: Block)
        requires
            w.hex_fits_all(),
        ensures
            r.decodes(*w),
    {
        Block {
            id: hex_encode(&w.id),
            da_height: as_i64(w.da_height),
            consensus_parameters_version: as_i64(w.consensus_parameters_version),
            state_transition_bytecode_version: as_i64(w.state_transition_bytecode_version),
            transactions_count: hex_encode(&w.transactions_count),
            message_receipt_count: hex_encode(&w.message_receipt_count),
            transactions_root: hex_encode(&w.transactions_root),
            message_outbox_root: hex_encode(&w.message_outbox_root),
            event_inbox_root: hex_encode(&w.event_inbox_root),
            height: as_i64(w.height),
            prev_root: hex_encode(&w.prev_root),
            time: as_i64(w.time),
            application_hash: hex_encode(&w.application_hash),
        }
    }
}

/// A transaction; which optional fields are present depends on `tx_type`. As received: hashes and data as bytes, numbers as the wire's
/// `u64`.
#[derive(Clone, Debug, Default)]
pub struct WireTransaction {
    pub block_height: u64,
    pub id: Vec<u8>,
    pub input_asset_ids: Option<Vec<Vec<u8>>>,
    pub input_contracts: Option<Vec<Vec<u8>>>,
    pub input_contract_utxo_id: Option<Vec<u8>>,
    pub input_contract_balance_root: Option<Vec<u8>>,
    pub input_contract_state_root: Option<Vec<u8>>,
    pub input_contract_tx_pointer_block_height: Option<u64>,
    pub input_contract_tx_pointer_tx_index: Option<u64>,
    pub input_contract: Option<Vec<u8>>,
    pub policies_tip: Option<u64>,
    pub policies_witness_limit: Option<u64>,
    pub policies_maturity: Option<u64>,
    pub policies_max_fee: Option<u64>,
    pub script_gas_limit: Option<u64>,
    pub maturity: Option<u64>,
    pub mint_amount: Option<u64>,
    pub mint_asset_id: Option<Vec<u8>>,
    pub mint_gas_price: Option<u64>,
    pub tx_pointer_block_height: Option<u64>,
    pub tx_pointer_tx_index: Option<u64>,
    pub tx_type: u8,
    pub output_contract_input_index: Option<u64>,
    pub output_contract_balance_root: Option<Vec<u8>>,
    pub output_contract_state_root: Option<Vec<u8>>,
    pub witnesses: Option<Vec<u8>>,
    pub receipts_root: Option<Vec<u8>>,
    pub status: u8,
    pub time: u64,
    pub reason: Option<String>,
    pub script: Option<Vec<u8>>,
    pub script_data: Option<Vec<u8>>,
    pub bytecode_witness_index: Option<u64>,
    pub bytecode_root: Option<Vec<u8>>,
    pub subsection_index: Option<u64>,
    pub subsections_number: Option<u64>,
    pub proof_set: Option<Vec<u8>>,
    pub consensus_parameters_upgrade_purpose_witness_index: Option<u64>,
    pub consensus_parameters_upgrade_purpose_checksum: Option<Vec<u8>>,
    pub state_transition_upgrade_purpose_root: Option<Vec<u8>>,
    pub salt: Option<Vec<u8>>,
}

/// A transaction; which optional fields are present depends on `tx_type`. As shown to callers: hashes and data as lowercase hex,
/// heights, counts and indices as bit-reinterpreted `i64`, amounts, registers,
/// pointers and lengths as exact arbitrary-precision integers.
#[derive(Clone, Debug, Default)]
pub struct Transaction {
    pub block_height: i64,
    pub id: String,
    pub input_asset_ids: Option<Vec<String>>,
    pub input_contracts: Option<Vec<String>>,
    pub input_contract_utxo_id: Option<String>,
    pub input_contract_balance_root: Option<String>,
    pub input_contract_state_root: Option<String>,
    pub input_contract_tx_pointer_block_height: Option<i64>,
    pub input_contract_tx_pointer_tx_index: Option<i64>,
    pub input_contract: Option<String>,
    pub policies_tip: Option<i64>,
    pub policies_witness_limit: Option<i64>,
    pub policies_maturity: Option<i64>,
    pub policies_max_fee: Option<i64>,
    pub script_gas_limit: Option<i64>,
    pub maturity: Option<i64>,
    pub mint_amount: Option<i64>,
    pub mint_asset_id: Option<String>,
    pub mint_gas_price: Option<i64>,
    pub tx_pointer_block_height: Option<i64>,
    pub tx_pointer_tx_index: Option<i64>,
    pub tx_type: u8,
    pub output_contract_input_index: Option<i64>,
    pub output_contract_balance_root: Option<String>,
    pub output_contract_state_root: Option<String>,
    pub witnesses: Option<String>,
    pub receipts_root: Option<String>,
    pub status: u8,
    pub time: i64,
    pub reason: Option<String>,
    pub script: Option<String>,
    pub script_data: Option<String>,
    pub bytecode_witness_index: Option<i64>,
    pub bytecode_root: Option<String>,
    pub subsection_index: Option<i64>,
    pub subsections_number: Option<i64>,
    pub proof_set: Option<String>,
    pub consensus_parameters_upgrade_purpose_witness_index: Option<i64>,
    pub consensus_parameters_upgrade_purpose_checksum: Option<String>,
    pub state_transition_upgrade_purpose_root: Option<String>,
    pub salt: Option<String>,
}

impl WireTransaction {
    /// Whether every byte field can be rendered in hex.
    pub open spec fn hex_fits_all(&self) -> bool {
        &&& hex_fits(self.id@)
        &&& list_hex_fits(self.input_asset_ids)
        &&& list_hex_fits(self.input_contracts)
        &&& opt_hex_fits(self.input_contract_utxo_id)
        &&& opt_hex_fits(self.input_contract_balance_root)
        &&& opt_hex_fits(self.input_contract_state_root)
        &&& opt_hex_fits(self.input_contract)
        &&& opt_hex_fits(self.mint_asset_id)
        &&& opt_hex_fits(self.output_contract_balance_root)
        &&& opt_hex_fits(self.output_contract_state_root)
        &&& opt_hex_fits(self.witnesses)
        &&& opt_hex_fits(self.receipts_root)
        &&& opt_hex_fits(self.script)
        &&& opt_hex_fits(self.script_data)
        &&& opt_hex_fits(self.bytecode_root)
        &&& opt_hex_fits(self.proof_set)
        &&& opt_hex_fits(self.consensus_parameters_upgrade_purpose_checksum)
        &&& opt_hex_fits(self.state_transition_upgrade_purpose_root)
        &&& opt_hex_fits(self.salt)
    }

    /// Whether every byte field can be rendered in hex, computed.
    pub fn check_hex_fits(&self) -> (r: bool)
        ensures
            r == self.hex_fits_all(),
    {
        hex_len_ok(&self.id)
            && list_hex_len_ok(&self.input_asset_ids)
            && list_hex_len_ok(&self.input_contracts)
            && opt_hex_len_ok(&self.input_contract_utxo_id)
            && opt_hex_len_ok(&self.input_contract_balance_root)
            && opt_hex_len_ok(&self.input_contract_state_root)
            && opt_hex_len_ok(&self.input_contract)
            && opt_hex_len_ok(&self.mint_asset_id)
            && opt_hex_len_ok(&self.output_contract_balance_root)
            && opt_hex_len_ok(&self.output_contract_state_root)
            && opt_hex_len_ok(&self.witnesses)
            && opt_hex_len_ok(&self.receipts_root)
            && opt_hex_len_ok(&self.script)
            && opt_hex_len_ok(&self.script_data)
            && opt_hex_len_ok(&self.bytecode_root)
            && opt_hex_len_ok(&self.proof_set)
            && opt_hex_len_ok(&self.consensus_parameters_upgrade_purpose_checksum)
            && opt_hex_len_ok(&self.state_transition_upgrade_purpose_root)
            && opt_hex_len_ok(&self.salt)
    }
}

impl Transaction {
    /// Whether this is the decoding of `w`, field by field.
    pub open spec fn decodes(&self, w: WireTransaction) -> bool {
        &&& self.block_height as int == widened(w.block_height)
        &&& hex_of(self.id, w.id)
        &&& hex_list_opt_of(self.input_asset_ids, w.input_asset_ids)
        &&& hex_list_opt_of(self.input_contracts, w.input_contracts)
        &&& hex_opt_of(self.input_contract_utxo_id, w.input_contract_utxo_id)
        &&& hex_opt_of(self.input_contract_balance_root, w.input_contract_balance_root)
        &&& hex_opt_of(self.input_contract_state_root, w.input_contract_state_root)
        &&& wide_opt_of(self.input_contract_tx_pointer_block_height, w.input_contract_tx_pointer_block_height)
        &&& wide_opt_of(self.input_contract_tx_pointer_tx_index, w.input_contract_tx_pointer_tx_index)
        &&& hex_opt_of(self.input_contract, w.input_contract)
        &&& wide_opt_of(self.policies_tip, w.policies_tip)
        &&& wide_opt_of(self.policies_witness_limit, w.policies_witness_limit)
        &&& wide_opt_of(self.policies_maturity, w.policies_maturity)
        &&& wide_opt_of(self.policies_max_fee, w.policies_max_fee)
        &&& wide_opt_of(self.script_gas_limit, w.script_gas_limit)
        &&& wide_opt_of(self.maturity, w.maturity)
        &&& wide_opt_of(self.mint_amount, w.mint_amount)
        &&& hex_opt_of(self.mint_asset_id, w.mint_asset_id)
        &&& wide_opt_of(self.mint_gas_price, w.mint_gas_price)
        &&& wide_opt_of(self.tx_pointer_block_height, w.tx_pointer_block_height)
        &&& wide_opt_of(self.tx_pointer_tx_index, w.tx_pointer_tx_index)
        &&& self.tx_type == w.tx_type
        &&& wide_opt_of(self.output_contract_input_index, w.output_contract_input_index)
        &&& hex_opt_of(self.output_contract_balance_root, w.output_contract_balance_root)
        &&& hex_opt_of(self.output_contract_state_root, w.output_contract_state_root)
        &&& hex_opt_of(self.witnesses, w.witnesses)
        &&& hex_opt_of(self.receipts_root, w.receipts_root)
        &&& self.status == w.status
        &&& self.time as int == widened(w.time)
        &&& text_opt_of(self.reason, w.reason)
        &&& hex_opt_of(self.script, w.script)
        &&& hex_opt_of(self.script_data, w.script_data)
        &&& wide_opt_of(self.bytecode_witness_index, w.bytecode_witness_index)
        &&& hex_opt_of(self.bytecode_root, w.bytecode_root)
        &&& wide_opt_of(self.subsection_index, w.subsection_index)
        &&& wide_opt_of(self.subsections_number, w.subsections_number)
        &&& hex_opt_of(self.proof_set, w.proof_set)
        &&& wide_opt_of(self.consensus_parameters_upgrade_purpose_witness_index, w.consensus_parameters_upgrade_purpose_witness_index)
        &&& hex_opt_of(self.consensus_parameters_upgrade_purpose_checksum, w.consensus_parameters_upgrade_purpose_checksum)
        &&& hex_opt_of(self.state_transition_upgrade_purpose_root, w.state_transition_upgrade_purpose_root)
        &&& hex_opt_of(self.salt, w.salt)
    }

    /// Decodes a wire record, applying to each field the policy of its kind.
    pub fn from_wire(w: &WireTransaction) -> (r: Transaction)
        requires
            w.hex_fits_all(),
        ensures
            r.decodes(*w),
    {
        Transaction {
            block_height: as_i64(w.block_height),
            id: hex_encode(&w.id),
            input_asset_ids: hex_list_opt(&w.input_asset_ids),
            input_contracts: hex_list_opt(&w.input_contracts),
            input_contract_utxo_id: hex_opt(&w.input_contract_utxo_id),
            input_contract_balance_root: hex_opt(&w.input_contract_balance_root),
            input_contract_state_root: hex_opt(&w.input_contract_state_root),
            input_contract_tx_pointer_block_height: widen_opt(w.input_contract_tx_pointer_block_height),
            input_contract_tx_pointer_tx_index: widen_opt(w.input_contract_tx_pointer_tx_index),
            input_contract: hex_opt(&w.input_contract),
            policies_tip: widen_opt(w.policies_tip),
            policies_witness_limit: widen_opt(w.policies_witness_limit),
            policies_maturity: widen_opt(w.policies_maturity),
            policies_max_fee: widen_opt(w.policies_max_fee),
            script_gas_limit: widen_opt(w.script_gas_limit),
            maturity: widen_opt(w.maturity),
            mint_amount: widen_opt(w.mint_amount),
            mint_asset_id: hex_opt(&w.mint_asset_id),
            mint_gas_price: widen_opt(w.mint_gas_price),
            tx_pointer_block_height: widen_opt(w.tx_pointer_block_height),
            tx_pointer_tx_index: widen_opt(w.tx_pointer_tx_index),
            tx_type: w.tx_type,
            output_contract_input_index: widen_opt(w.output_contract_input_index),
            output_contract_balance_root: hex_opt(&w.output_contract_balance_root),
            output_contract_state_root: hex_opt(&w.output_contract_state_root),
            witnesses: hex_opt(&w.witnesses),
            receipts_root: hex_opt(&w.receipts_root),
            status: w.status,
            time: as_i64(w.time),
            reason: text_opt(&w.reason),
            script: hex_opt(&w.script),
            script_data: hex_opt(&w.script_data),
            bytecode_witness_index: widen_opt(w.bytecode_witness_index),
            bytecode_root: hex_opt(&w.bytecode_root),
            subsection_index: widen_opt(w.subsection_index),
            subsections_number: widen_opt(w.subsections_number),
            proof_set: hex_opt(&w.proof_set),
            consensus_parameters_upgrade_purpose_witness_index: widen_opt(w.consensus_parameters_upgrade_purpose_witness_index),
            consensus_parameters_upgrade_purpose_checksum: hex_opt(&w.consensus_parameters_upgrade_purpose_checksum),
            state_transition_upgrade_purpose_root: hex_opt(&w.state_transition_upgrade_purpose_root),
            salt: hex_opt(&w.salt),
        }
    }
}

/// A receipt of any kind; which optional fields are present depends on `receipt_type`. As received: hashes and data as bytes, numbers as the wire's
/// `u64`.
#[derive(Clone, Debug, Default)]
pub struct WireReceipt {
    pub receipt_index: u64,
    pub root_contract_id: Option<Vec<u8>>,
    pub tx_id: Vec<u8>,
    pub tx_status: u8,
    pub block_height: u64,
    pub pc: Option<u64>,
    pub is: Option<u64>,
    pub to: Option<Vec<u8>>,
    pub to_address: Option<Vec<u8>>,
    pub amount: Option<u64>,
    pub asset_id: Option<Vec<u8>>,
    pub gas: Option<u64>,
    pub param1: Option<u64>,
    pub param2: Option<u64>,
    pub val: Option<u64>,
    pub ptr: Option<u64>,
    pub digest: Option<Vec<u8>>,
    pub reason: Option<u64>,
    pub ra: Option<u64>,
    pub rb: Option<u64>,
    pub rc: Option<u64>,
    pub rd: Option<u64>,
    pub len: Option<u64>,
    pub receipt_type: u8,
    pub result: Option<u64>,
    pub gas_used: Option<u64>,
    pub data: Option<Vec<u8>>,
    pub sender: Option<Vec<u8>>,
    pub recipient: Option<Vec<u8>>,
    pub nonce: Option<Vec<u8>>,
    pub contract_id: Option<Vec<u8>>,
    pub sub_id: Option<Vec<u8>>,
}

/// A receipt of any kind; which optional fields are present depends on `receipt_type`. As shown to callers: hashes and data as lowercase hex,
/// heights, counts and indices as bit-reinterpreted `i64`, amounts, registers,
/// pointers and lengths as exact arbitrary-precision integers.
#[derive(Clone, Debug, Default)]
pub struct Receipt {
    pub receipt_index: i64,
    pub root_contract_id: Option<String>,
    pub tx_id: String,
    pub tx_status: u8,
    pub block_height: i64,
    pub pc: Option<String>,
    pub is: Option<String>,
    pub to: Option<String>,
    pub to_address: Option<String>,
    pub amount: Option<BigInt>,
    pub asset_id: Option<String>,
    pub gas: Option<i64>,
    pub param1: Option<BigInt>,
    pub param2: Option<BigInt>,
    pub val: Option<BigInt>,
    pub ptr: Option<BigInt>,
    pub digest: Option<String>,
    pub reason: Option<i64>,
    pub ra: Option<BigInt>,
    pub rb: Option<BigInt>,
    pub rc: Option<BigInt>,
    pub rd: Option<BigInt>,
    pub len: Option<BigInt>,
    pub receipt_type: u8,
    pub result: Option<i64>,
    pub gas_used: Option<i64>,
    pub data: Option<String>,
    pub sender: Option<String>,
    pub recipient: Option<String>,
    pub nonce: Option<String>,
    pub contract_id: Option<String>,
    pub sub_id: Option<String>,
}

impl WireReceipt {
    /// Whether every byte field can be rendered in hex.
    pub open spec fn hex_fits_all(&self) -> bool {
        &&& opt_hex_fits(self.root_contract_id)
        &&& hex_fits(self.tx_id@)
        &&& opt_hex_fits(self.to)
        &&& opt_hex_fits(self.to_address)
        &&& opt_hex_fits(self.asset_id)
        &&& opt_hex_fits(self.digest)
        &&& opt_hex_fits(self.data)
        &&& opt_hex_fits(self.sender)
        &&& opt_hex_fits(self.recipient)
        &&& opt_hex_fits(self.nonce)
        &&& opt_hex_fits(self.contract_id)
        &&& opt_hex_fits(self.sub_id)
    }

    /// Whether every byte field can be rendered in hex, computed.
    pub fn check_hex_fits(&self) -> (r: bool)
        ensures
            r == self.hex_fits_all(),
    {
        opt_hex_len_ok(&self.root_contract_id)
            && hex_len_ok(&self.tx_id)
            && opt_hex_len_ok(&self.to)
            && opt_hex_len_ok(&self.to_address)
            && opt_hex_len_ok(&self.asset_id)
            && opt_hex_len_ok(&self.digest)
            && opt_hex_len_ok(&self.data)
            && opt_hex_len_ok(&self.sender)
            && opt_hex_len_ok(&self.recipient)
            && opt_hex_len_ok(&self.nonce)
            && opt_hex_len_ok(&self.contract_id)
            && opt_hex_len_ok(&self.sub_id)
    }
}

impl Receipt {
    /// Whether this is the decoding of `w`, field by field.
    pub open spec fn decodes(&self, w: WireReceipt) -> bool {
        &&& self.receipt_index as int == widened(w.receipt_index)
        &&& hex_opt_of(self.root_contract_id, w.root_contract_id)
        &&& hex_of(self.tx_id, w.tx_id)
        &&& self.tx_status == w.tx_status
        &&& self.block_height as int == widened(w.block_height)
        &&& decimal_opt_of(self.pc, w.pc)
        &&& decimal_opt_of(self.is, w.is)
        &&& hex_opt_of(self.to, w.to)
        &&& hex_opt_of(self.to_address, w.to_address)
        &&& big_opt_of(self.amount, w.amount)
        &&& hex_opt_of(self.asset_id, w.asset_id)
        &&& wide_opt_of(self.gas, w.gas)
        &&& big_opt_of(self.param1, w.param1)
        &&& big_opt_of(self.param2, w.param2)
        &&& big_opt_of(self.val, w.val)
        &&& big_opt_of(self.ptr, w.ptr)
        &&& hex_opt_of(self.digest, w.digest)
        &&& wide_opt_of(self.reason, w.reason)
        &&& big_opt_of(self.ra, w.ra)
        &&& big_opt_of(self.rb, w.rb)
        &&& big_opt_of(self.rc, w.rc)
        &&& big_opt_of(self.rd, w.rd)
        &&& big_opt_of(self.len, w.len)
        &&& self.receipt_type == w.receipt_type
        &&& wide_opt_of(self.result, w.result)
        &&& wide_opt_of(self.gas_used, w.gas_used)
        &&& hex_opt_of(self.data, w.data)
        &&& hex_opt_of(self.sender, w.sender)
        &&& hex_opt_of(self.recipient, w.recipient)
        &&& hex_opt_of(self.nonce, w.nonce)
        &&& hex_opt_of(self.contract_id, w.contract_id)
        &&& hex_opt_of(self.sub_id, w.sub_id)
    }

    /// Decodes a wire record, applying to each field the policy of its kind.
    pub fn from_wire(w: &WireReceipt) -> (r: Receipt)
        requires
            w.hex_fits_all(),
        ensures
            r.decodes(*w),
    {
        Receipt {
            receipt_index: as_i64(w.receipt_index),
            root_contract_id: hex_opt(&w.root_contract_id),
            tx_id: hex_encode(&w.tx_id),
            tx_status: w.tx_status,
            block_height: as_i64(w.block_height),
            pc: decimal_opt(w.pc),
            is: decimal_opt(w.is),
            to: hex_opt(&w.to),
            to_address: hex_opt(&w.to_address),
            amount: big_opt(w.amount),
            asset_id: hex_opt(&w.asset_id),
            gas: widen_opt(w.gas),
            param1: big_opt(w.param1),
            param2: big_opt(w.param2),
            val: big_opt(w.val),
            ptr: big_opt(w.ptr),
            digest: hex_opt(&w.digest),
            reason: widen_opt(w.reason),
            ra: big_opt(w.ra),
            rb: big_opt(w.rb),
            rc: big_opt(w.rc),
            rd: big_opt(w.rd),
            len: big_opt(w.len),
            receipt_type: w.receipt_type,
            result: widen_opt(w.result),
            gas_used: widen_opt(w.gas_used),
            data: hex_opt(&w.data),
            sender: hex_opt(&w.sender),
            recipient: hex_opt(&w.recipient),
            nonce: hex_opt(&w.nonce),
            contract_id: hex_opt(&w.contract_id),
            sub_id: hex_opt(&w.sub_id),
        }
    }
}

/// An input of any kind (coin, contract, message). As received: hashes and data as bytes, numbers as the wire's
/// `u64`.
#[derive(Clone, Debug, Default)]
pub struct WireInput {
    pub tx_id: Vec<u8>,
    pub tx_status: u8,
    pub block_height: u64,
    pub input_type: u8,
    pub utxo_id: Option<Vec<u8>>,
    pub owner: Option<Vec<u8>>,
    pub amount: Option<u64>,
    pub asset_id: Option<Vec<u8>>,
    pub tx_pointer_block_height: Option<u64>,
    pub tx_pointer_tx_index: Option<u64>,
    pub witness_index: Option<u64>,
    pub predicate_gas_used: Option<u64>,
    pub predicate: Option<Vec<u8>>,
    pub predicate_data: Option<Vec<u8>>,
    pub balance_root: Option<Vec<u8>>,
    pub state_root: Option<Vec<u8>>,
    pub contract: Option<Vec<u8>>,
    pub sender: Option<Vec<u8>>,
    pub recipient: Option<Vec<u8>>,
    pub nonce: Option<Vec<u8>>,
    pub data: Option<Vec<u8>>,
}

/// An input of any kind (coin, contract, message). As shown to callers: hashes and data as lowercase hex,
/// heights, counts and indices as bit-reinterpreted `i64`, amounts, registers,
/// pointers and lengths as exact arbitrary-precision integers.
#[derive(Clone, Debug, Default)]
pub struct Input {
    pub tx_id: String,
    pub tx_status: u8,
    pub block_height: i64,
    pub input_type: u8,
    pub utxo_id: Option<String>,
    pub owner: Option<String>,
    pub amount: Option<BigInt>,
    pub asset_id: Option<String>,
    pub tx_pointer_block_height: Option<i64>,
    pub tx_pointer_tx_index: Option<i64>,
    pub witness_index: Option<i64>,
    pub predicate_gas_used: Option<i64>,
    pub predicate: Option<String>,
    pub predicate_data: Option<String>,
    pub balance_root: Option<String>,
    pub state_root: Option<String>,
    pub contract: Option<String>,
    pub sender: Option<String>,
    pub recipient: Option<String>,
    pub nonce: Option<String>,
    pub data: Option<String>,
}

impl WireInput {
    /// Whether every byte field can be rendered in hex.
    pub open spec fn hex_fits_all(&self) -> bool {
        &&& hex_fits(self.tx_id@)
        &&& opt_hex_fits(self.utxo_id)
        &&& opt_hex_fits(self.owner)
        &&& opt_hex_fits(self.asset_id)
        &&& opt_hex_fits(self.predicate)
        &&& opt_hex_fits(self.predicate_data)
        &&& opt_hex_fits(self.balance_root)
        &&& opt_hex_fits(self.state_root)
        &&& opt_hex_fits(self.contract)
        &&& opt_hex_fits(self.sender)
        &&& opt_hex_fits(self.recipient)
        &&& opt_hex_fits(self.nonce)
        &&& opt_hex_fits(self.data)
    }

    /// Whether every byte field can be rendered in hex, computed.
    pub fn check_hex_fits(&self) -> (r: bool)
        ensures
            r == self.hex_fits_all(),
    {
        hex_len_ok(&self.tx_id)
            && opt_hex_len_ok(&self.utxo_id)
            && opt_hex_len_ok(&self.owner)
            && opt_hex_len_ok(&self.asset_id)
            && opt_hex_len_ok(&self.predicate)
            && opt_hex_len_ok(&self.predicate_data)
            && opt_hex_len_ok(&self.balance_root)
            && opt_hex_len_ok(&self.state_root)
            && opt_hex_len_ok(&self.contract)
            && opt_hex_len_ok(&self.sender)
            && opt_hex_len_ok(&self.recipient)
            && opt_hex_len_ok(&self.nonce)
            && opt_hex_len_ok(&self.data)
    }
}

impl Input {
    /// Whether this is the decoding of `w`, field by field.
    pub open spec fn decodes(&self, w: WireInput) -> bool {
        &&& hex_of(self.tx_id, w.tx_id)
        &&& self.tx_status == w.tx_status
        &&& self.block_height as int == widened(w.block_height)
        &&& self.input_type == w.input_type
        &&& hex_opt_of(self.utxo_id, w.utxo_id)
        &&& hex_opt_of(self.owner, w.owner)
        &&& big_opt_of(self.amount, w.amount)
        &&& hex_opt_of(self.asset_id, w.asset_id)
        &&& wide_opt_of(self.tx_pointer_block_height, w.tx_pointer_block_height)
        &&& wide_opt_of(self.tx_pointer_tx_index, w.tx_pointer_tx_index)
        &&& wide_opt_of(self.witness_index, w.witness_index)
        &&& wide_opt_of(self.predicate_gas_used, w.predicate_gas_used)
        &&& hex_opt_of(self.predicate, w.predicate)
        &&& hex_opt_of(self.predicate_data, w.predicate_data)
        &&& hex_opt_of(self.balance_root, w.balance_root)
        &&& hex_opt_of(self.state_root, w.state_root)
        &&& hex_opt_of(self.contract, w.contract)
        &&& hex_opt_of(self.sender, w.sender)
        &&& hex_opt_of(self.recipient, w.recipient)
        &&& hex_opt_of(self.nonce, w.nonce)
        &&& hex_opt_of(self.data, w.data)
    }

    /// Decodes a wire record, applying to each field the policy of its kind.
    pub fn from_wire(w: &WireInput) -> (r: Input)
        requires
            w.hex_fits_all(),
        ensures
            r.decodes(*w),
    {
        Input {
            tx_id: hex_encode(&w.tx_id),
            tx_status: w.tx_status,
            block_height: as_i64(w.block_height),
            input_type: w.input_type,
            utxo_id: hex_opt(&w.utxo_id),
            owner: hex_opt(&w.owner),
            amount: big_opt(w.amount),
            asset_id: hex_opt(&w.asset_id),
            tx_pointer_block_height: widen_opt(w.tx_pointer_block_height),
            tx_pointer_tx_index: widen_opt(w.tx_pointer_tx_index),
            witness_index: widen_opt(w.witness_index),
            predicate_gas_used: widen_opt(w.predicate_gas_used),
            predicate: hex_opt(&w.predicate),
            predicate_data: hex_opt(&w.predicate_data),
            balance_root: hex_opt(&w.balance_root),
            state_root: hex_opt(&w.state_root),
            contract: hex_opt(&w.contract),
            sender: hex_opt(&w.sender),
            recipient: hex_opt(&w.recipient),
            nonce: hex_opt(&w.nonce),
            data: hex_opt(&w.data),
        }
    }
}

/// An output of any kind (coin, contract, change, variable, contract created). As received: hashes and data as bytes, numbers as the wire's
/// `u64`.
#[derive(Clone, Debug, Default)]
pub struct WireOutput {
    pub tx_id: Vec<u8>,
    pub tx_status: u8,
    pub block_height: u64,
    pub output_type: u8,
    pub to: Option<Vec<u8>>,
    pub amount: Option<u64>,
    pub asset_id: Option<Vec<u8>>,
    pub input_index: Option<u64>,
    pub balance_root: Option<Vec<u8>>,
    pub state_root: Option<Vec<u8>>,
    pub contract: Option<Vec<u8>>,
}

/// An output of any kind (coin, contract, change, variable, contract created). As shown to callers: hashes and data as lowercase hex,
/// heights, counts and indices as bit-reinterpreted `i64`, amounts, registers,
/// pointers and lengths as exact arbitrary-precision integers.
#[derive(Clone, Debug, Default)]
pub struct Output {
    pub tx_id: String,
    pub tx_status: u8,
    pub block_height: i64,
    pub output_type: u8,
    pub to: Option<String>,
    pub amount: Option<BigInt>,
    pub asset_id: Option<String>,
    pub input_index: Option<i64>,
    pub balance_root: Option<String>,
    pub state_root: Option<String>,
    pub contract: Option<String>,
}

impl WireOutput {
    /// Whether every byte field can be rendered in hex.
    pub open spec fn hex_fits_all(&self) -> bool {
        &&& hex_fits(self.tx_id@)
        &&& opt_hex_fits(self.to)
        &&& opt_hex_fits(self.asset_id)
        &&& opt_hex_fits(self.balance_root)
        &&& opt_hex_fits(self.state_root)
        &&& opt_hex_fits(self.contract)
    }

    /// Whether every byte field can be rendered in hex, computed.
    pub fn check_hex_fits(&self) -> (r: bool)
        ensures
            r == self.hex_fits_all(),
    {
        hex_len_ok(&self.tx_id)
            && opt_hex_len_ok(&self.to)
            && opt_hex_len_ok(&self.asset_id)
            && opt_hex_len_ok(&self.balance_root)
            && opt_hex_len_ok(&self.state_root)
            && opt_hex_len_ok(&self.contract)
    }
}

impl Output {
    /// Whether this is the decoding of `w`, field by field.
    pub open spec fn decodes(&self, w: WireOutput) -> bool {
        &&& hex_of(self.tx_id, w.tx_id)
        &&& self.tx_status == w.tx_status
        &&& self.block_height as int == widened(w.block_height)
        &&& self.output_type == w.output_type
        &&& hex_opt_of(self.to, w.to)
        &&& big_opt_of(self.amount, w.amount)
        &&& hex_opt_of(self.asset_id, w.asset_id)
        &&& wide_opt_of(self.input_index, w.input_index)
        &&& hex_opt_of(self.balance_root, w.balance_root)
        &&& hex_opt_of(self.state_root, w.state_root)
        &&& hex_opt_of(self.contract, w.contract)
    }

    /// Decodes a wire record, applying to each field the policy of its kind.
    pub fn from_wire(w: &WireOutput) -> (r: Output)
        requires
            w.hex_fits_all(),
        ensures
            r.decodes(*w),
    {
        Output {
            tx_id: hex_encode(&w.tx_id),
            tx_status: w.tx_status,
            block_height: as_i64(w.block_height),
            output_type: w.output_type,
            to: hex_opt(&w.to),
            amount: big_opt(w.amount),
            asset_id: hex_opt(&w.asset_id),
            input_index: widen_opt(w.input_index),
            balance_root: hex_opt(&w.balance_root),
            state_root: hex_opt(&w.state_root),
            contract: hex_opt(&w.contract),
        }
    }
}

/// A log or log-data receipt with what is needed to decode it and some context. As received: hashes and data as bytes, numbers as the wire's
/// `u64`.
#[derive(Clone, Debug, Default)]
pub struct WireLogContext {
    pub block_height: u64,
    pub tx_id: Vec<u8>,
    pub receipt_index: u64,
    pub receipt_type: u8,
    pub contract_id: Option<Vec<u8>>,
    pub root_contract_id: Option<Vec<u8>>,
    pub ra: Option<u64>,
    pub rb: Option<u64>,
    pub rc: Option<u64>,
    pub rd: Option<u64>,
    pub pc: Option<u64>,
    pub is: Option<u64>,
    pub ptr: Option<u64>,
    pub len: Option<u64>,
    pub digest: Option<Vec<u8>>,
    pub data: Option<Vec<u8>>,
}

/// A log or log-data receipt with what is needed to decode it and some context. As shown to callers: hashes and data as lowercase hex,
/// heights, counts and indices as bit-reinterpreted `i64`, amounts, registers,
/// pointers and lengths as exact arbitrary-precision integers.
#[derive(Clone, Debug, Default)]
pub struct LogContext {
    pub block_height: i64,
    pub tx_id: String,
    pub receipt_index: i64,
    pub receipt_type: u8,
    pub contract_id: Option<String>,
    pub root_contract_id: Option<String>,
    pub ra: Option<i64>,
    pub rb: Option<i64>,
    pub rc: Option<i64>,
    pub rd: Option<i64>,
    pub pc: Option<i64>,
    pub is: Option<i64>,
    pub ptr: Option<i64>,
    pub len: Option<i64>,
    pub digest: Option<String>,
    pub data: Option<String>,
}

impl WireLogContext {
    /// Whether every byte field can be rendered in hex.
    pub open spec fn hex_fits_all(&self) -> bool {
        &&& hex_fits(self.tx_id@)
        &&& opt_hex_fits(self.contract_id)
        &&& opt_hex_fits(self.root_contract_id)
        &&& opt_hex_fits(self.digest)
        &&& opt_hex_fits(self.data)
    }

    /// Whether every byte field can be rendered in hex, computed.
    pub fn check_hex_fits(&self) -> (r: bool)
        ensures
            r == self.hex_fits_all(),
    {
        hex_len_ok(&self.tx_id)
            && opt_hex_len_ok(&self.contract_id)
            && opt_hex_len_ok(&self.root_contract_id)
            && opt_hex_len_ok(&self.digest)
            && opt_hex_len_ok(&self.data)
    }
}

impl LogContext {
    /// Whether this is the decoding of `w`, field by field.
    pub open spec fn decodes(&self, w: WireLogContext) -> bool {
        &&& self.block_height as int == widened(w.block_height)
        &&& hex_of(self.tx_id, w.tx_id)
        &&& self.receipt_index as int == widened(w.receipt_index)
        &&& self.receipt_type == w.receipt_type
        &&& hex_opt_of(self.contract_id, w.contract_id)
        &&& hex_opt_of(self.root_contract_id, w.root_contract_id)
        &&& wide_opt_of(self.ra, w.ra)
        &&& wide_opt_of(self.rb, w.rb)
        &&& wide_opt_of(self.rc, w.rc)
        &&& wide_opt_of(self.rd, w.rd)
        &&& wide_opt_of(self.pc, w.pc)
        &&& wide_opt_of(self.is, w.is)
        &&& wide_opt_of(self.ptr, w.ptr)
        &&& wide_opt_of(self.len, w.len)
        &&& hex_opt_of(self.digest, w.digest)
        &&& hex_opt_of(self.data, w.data)
    }

    /// Decodes a wire record, applying to each field the policy of its kind.
    pub fn from_wire(w: &WireLogContext) -> (r: LogContext)
        requires
            w.hex_fits_all(),
        ensures
            r.decodes(*w),
    {
        LogContext {
            block_height: as_i64(w.block_height),
            tx_id: hex_encode(&w.tx_id),
            receipt_index: as_i64(w.receipt_index),
            receipt_type: w.receipt_type,
            contract_id: hex_opt(&w.contract_id),
            root_contract_id: hex_opt(&w.root_contract_id),
            ra: widen_opt(w.ra),
            rb: widen_opt(w.rb),
            rc: widen_opt(w.rc),
            rd: widen_opt(w.rd),
            pc: widen_opt(w.pc),
            is: widen_opt(w.is),
            ptr: widen_opt(w.ptr),
            len: widen_opt(w.len),
            digest: hex_opt(&w.digest),
            data: hex_opt(&w.data),
        }
    }
}

pub open spec fn blocks_decoded(r: Seq<Block>, w: Seq<WireBlock>) -> bool {
    r.len() == w.len() && forall|i: int| 0 <= i < w.len() ==> #[trigger] r[i].decodes(w[i])
}

pub open spec fn blocks_fit(w: Seq<WireBlock>) -> bool {
    forall|i: int| 0 <= i < w.len() ==> (#[trigger] w[i]).hex_fits_all()
}

fn check_blocks(w: &Vec<WireBlock>) -> (r: bool)
    ensures
        r == blocks_fit(w@),
{
    let mut i: usize = 0;
    while i < w.len()
        invariant
            i <= w@.len(),
            forall|k: int| 0 <= k < i ==> (#[trigger] w@[k]).hex_fits_all(),
        decreases w@.len() - i,
    {
        if !w[i].check_hex_fits() {
            return false;
        }
        i = i + 1;
    }
    true
}

fn decode_blocks(w: &Vec<WireBlock>) -> (r: Vec<Block>)
    requires
        blocks_fit(w@),
    ensures
        blocks_decoded(r@, w@),
{
    let mut out: Vec<Block> = Vec::new();
    let mut i: usize = 0;
    while i < w.len()
        invariant
            i <= w@.len(),
            out@.len() == i,
            forall|k: int| 0 <= k < i ==> #[trigger] out@[k].decodes(w@[k]),
            forall|k: int| 0 <= k < w@.len() ==> (#[trigger] w@[k]).hex_fits_all(),
        decreases w@.len() - i,
    {
        out.push(Block::from_wire(&w[i]));
        i = i + 1;
    }
    out
}

pub open spec fn transactions_decoded(r: Seq<Transaction>, w: Seq<WireTransaction>) -> bool {
    r.len() == w.len() && forall|i: int| 0 <= i < w.len() ==> #[trigger] r[i].decodes(w[i])
}

pub open spec fn transactions_fit(w: Seq<WireTransaction>) -> bool {
    forall|i: int| 0 <= i < w.len() ==> (#[trigger] w[i]).hex_fits_all()
}

fn check_transactions(w: &Vec<WireTransaction>) -> (r: bool)
    ensures
        r == transactions_fit(w@),
{
    let mut i: usize = 0;
    while i < w.len()
        invariant
            i <= w@.len(),
            forall|k: int| 0 <= k < i ==> (#[trigger] w@[k]).hex_fits_all(),
        decreases w@.len() - i,
    {
        if !w[i].check_hex_fits() {
            return false;
        }
        i = i + 1;
    }
    true
}

fn decode_transactions(w: &Vec<WireTransaction>) -> (r: Vec<Transaction>)
    requires
        transactions_fit(w@),
    ensures
        transactions_decoded(r@, w@),
{
    let mut out: Vec<Transaction> = Vec::new();
    let mut i: usize = 0;
    while i < w.len()
        invariant
            i <= w@.len(),
            out@.len() == i,
            forall|k: int| 0 <= k < i ==> #[trigger] out@[k].decodes(w@[k]),
            forall|k: int| 0 <= k < w@.len() ==> (#[trigger] w@[k]).hex_fits_all(),
        decreases w@.len() - i,
    {
        out.push(Transaction::from_wire(&w[i]));
        i = i + 1;
    }
    out
}

pub open spec fn receipts_decoded(r: Seq<Receipt>, w: Seq<WireReceipt>) -> bool {
    r.len() == w.len() && forall|i: int| 0 <= i < w.len() ==> #[trigger] r[i].decodes(w[i])
}

pub open spec fn receipts_fit(w: Seq<WireReceipt>) -> bool {
    forall|i: int| 0 <= i < w.len() ==> (#[trigger] w[i]).hex_fits_all()
}

fn check_receipts(w: &Vec<WireReceipt>) -> (r: bool)
    ensures
        r == receipts_fit(w@),
{
    let mut i: usize = 0;
    while i < w.len()
        invariant
            i <= w@.len(),
            forall|k: int| 0 <= k < i ==> (#[trigger] w@[k]).hex_fits_all(),
        decreases w@.len() - i,
    {
        if !w[i].check_hex_fits() {
            return false;
        }
        i = i + 1;
    }
    true
}

fn decode_receipts(w: &Vec<WireReceipt>) -> (r: Vec<Receipt>)
    requires
        receipts_fit(w@),
    ensures
        receipts_decoded(r@, w@),
{
    let mut out: Vec<Receipt> = Vec::new();
    let mut i: usize = 0;
    while i < w.len()
        invariant
            i <= w@.len(),
            out@.len() == i,
            forall|k: int| 0 <= k < i ==> #[trigger] out@[k].decodes(w@[k]),
            forall|k: int| 0 <= k < w@.len() ==> (#[trigger] w@[k]).hex_fits_all(),
        decreases w@.len() - i,
    {
        out.push(Receipt::from_wire(&w[i]));
        i = i + 1;
    }
    out
}

pub open spec fn inputs_decoded(r: Seq<Input>, w: Seq<WireInput>) -> bool {
    r.len() == w.len() && forall|i: int| 0 <= i < w.len() ==> #[trigger] r[i].decodes(w[i])
}

pub open spec fn inputs_fit(w: Seq<WireInput>) -> bool {
    forall|i: int| 0 <= i < w.len() ==> (#[trigger] w[i]).hex_fits_all()
}

fn check_inputs(w: &Vec<WireInput>) -> (r: bool)
    ensures
        r == inputs_fit(w@),
{
    let mut i: usize = 0;
    while i < w.len()
        invariant
            i <= w@.len(),
            forall|k: int| 0 <= k < i ==> (#[trigger] w@[k]).hex_fits_all(),
        decreases w@.len() - i,
    {
        if !w[i].check_hex_fits() {
            return false;
        }
        i = i + 1;
    }
    true
}

fn decode_inputs(w: &Vec<WireInput>) -> (r: Vec<Input>)
    requires
        inputs_fit(w@),
    ensures
        inputs_decoded(r@, w@),
{
    let mut out: Vec<Input> = Vec::new();
    let mut i: usize = 0;
    while i < w.len()
        invariant
            i <= w@.len(),
            out@.len() == i,
            forall|k: int| 0 <= k < i ==> #[trigger] out@[k].decodes(w@[k]),
            forall|k: int| 0 <= k < w@.len() ==> (#[trigger] w@[k]).hex_fits_all(),
        decreases w@.len() - i,
    {
        out.push(Input::from_wire(&w[i]));
        i = i + 1;
    }
    out
}

pub open spec fn outputs_decoded(r: Seq<Output>, w: Seq<WireOutput>) -> bool {
    r.len() == w.len() && forall|i: int| 0 <= i < w.len() ==> #[trigger] r[i].decodes(w[i])
}

pub open spec fn outputs_fit(w: Seq<WireOutput>) -> bool {
    forall|i: int| 0 <= i < w.len() ==> (#[trigger] w[i]).hex_fits_all()
}

fn check_outputs(w: &Vec<WireOutput>) -> (r: bool)
    ensures
        r == outputs_fit(w@),
{
    let mut i: usize = 0;
    while i < w.len()
        invariant
            i <= w@.len(),
            forall|k: int| 0 <= k < i ==> (#[trigger] w@[k]).hex_fits_all(),
        decreases w@.len() - i,
    {
        if !w[i].check_hex_fits() {
            return false;
        }
        i = i + 1;
    }
    true
}

fn decode_outputs(w: &Vec<WireOutput>) -> (r: Vec<Output>)
    requires
        outputs_fit(w@),
    ensures
        outputs_decoded(r@, w@),
{
    let mut out: Vec<Output> = Vec::new();
    let mut i: usize = 0;
    while i < w.len()
        invariant
            i <= w@.len(),
            out@.len() == i,
            forall|k: int| 0 <= k < i ==> #[trigger] out@[k].decodes(w@[k]),
            forall|k: int| 0 <= k < w@.len() ==> (#[trigger] w@[k]).hex_fits_all(),
        decreases w@.len() - i,
    {
        out.push(Output::from_wire(&w[i]));
        i = i + 1;
    }
    out
}

pub open spec fn logs_decoded(r: Seq<LogContext>, w: Seq<WireLogContext>) -> bool {
    r.len() == w.len() && forall|i: int| 0 <= i < w.len() ==> #[trigger] r[i].decodes(w[i])
}

pub open spec fn logs_fit(w: Seq<WireLogContext>) -> bool {
    forall|i: int| 0 <= i < w.len() ==> (#[trigger] w[i]).hex_fits_all()
}

fn check_logs(w: &Vec<WireLogContext>) -> (r: bool)
    ensures
        r == logs_fit(w@),
{
    let mut i: usize = 0;
    while i < w.len()
        invariant
            i <= w@.len(),
            forall|k: int| 0 <= k < i ==> (#[trigger] w@[k]).hex_fits_all(),
        decreases w@.len() - i,
    {
        if !w[i].check_hex_fits() {
            return false;
        }
        i = i + 1;
    }
    true
}

fn decode_logs(w: &Vec<WireLogContext>) -> (r: Vec<LogContext>)
    requires
        logs_fit(w@),
    ensures
        logs_decoded(r@, w@),
{
    let mut out: Vec<LogContext> = Vec::new();
    let mut i: usize = 0;
    while i < w.len()
        invariant
            i <= w@.len(),
            out@.len() == i,
            forall|k: int| 0 <= k < i ==> #[trigger] out@[k].decodes(w@[k]),
            forall|k: int| 0 <= k < w@.len() ==> (#[trigger] w@[k]).hex_fits_all(),
        decreases w@.len() - i,
    {
        out.push(LogContext::from_wire(&w[i]));
        i = i + 1;
    }
    out
}

/// The records of a query response, as received.
#[derive(Clone, Debug, Default)]
pub struct WireResponseData {
    pub blocks: Vec<WireBlock>,
    pub transactions: Vec<WireTransaction>,
    pub receipts: Vec<WireReceipt>,
    pub inputs: Vec<WireInput>,
    pub outputs: Vec<WireOutput>,
}

/// A query response, as received.
#[derive(Clone, Debug, Default)]
pub struct WireQueryResponse {
    /// Current height of the source instance, when it reports one.
    pub archive_height: Option<u64>,
    /// Where to continue: the caller's next `from_block`.
    pub next_block: u64,
    /// Time the source took to execute the query.
    pub total_execution_time: u64,
    pub data: WireResponseData,
}

/// A log query response, as received.
#[derive(Clone, Debug, Default)]
pub struct WireLogResponse {
    pub archive_height: Option<u64>,
    pub next_block: u64,
    pub total_execution_time: u64,
    pub data: Vec<WireLogContext>,
}

/// The typed records of a query response.
#[derive(Clone, Debug, Default)]
pub struct QueryResponseDataTyped {
    pub blocks: Vec<Block>,
    pub transactions: Vec<Transaction>,
    pub receipts: Vec<Receipt>,
    pub inputs: Vec<Input>,
    pub outputs: Vec<Output>,
}

/// A query response with typed records.
#[derive(Clone, Debug, Default)]
pub struct QueryResponseTyped {
    /// Current height of the source instance, when it reports one.
    pub archive_height: Option<i64>,
    /// Next block to query for: responses are paginated, so the caller
    /// continues from here if the range was not covered.
    pub next_block: i64,
    /// Time the source took to execute the query.
    pub total_execution_time: i64,
    pub data: QueryResponseDataTyped,
}

/// A log query response with typed log contexts.
#[derive(Clone, Debug, Default)]
pub struct LogResponse {
    pub archive_height: Option<i64>,
    pub next_block: i64,
    pub total_execution_time: i64,
    pub data: Vec<LogContext>,
}

impl QueryResponseTyped {
    /// Whether this is the decoding of `w`.
    pub open spec fn decodes(&self, w: WireQueryResponse) -> bool {
        &&& wide_opt_of(self.archive_height, w.archive_height)
        &&& self.next_block as int == widened(w.next_block)
        &&& self.total_execution_time as int == widened(w.total_execution_time)
        &&& blocks_decoded(self.data.blocks@, w.data.blocks@)
        &&& transactions_decoded(self.data.transactions@, w.data.transactions@)
        &&& receipts_decoded(self.data.receipts@, w.data.receipts@)
        &&& inputs_decoded(self.data.inputs@, w.data.inputs@)
        &&& outputs_decoded(self.data.outputs@, w.data.outputs@)
    }

    /// Decodes a query response: the envelope's numbers are widened, an
    /// absent height stays absent, and every record is decoded in order.
    /// Gives `None` only when a byte field is too long to render in hex.
    pub fn from_wire(w: &WireQueryResponse) -> (r: Option<QueryResponseTyped>)
        ensures
            r is Some <==> w.hex_fits_all(),
            r is Some ==> r->Some_0.decodes(*w),
    {
        if !(check_blocks(&w.data.blocks) && check_transactions(&w.data.transactions)
            && check_receipts(&w.data.receipts) && check_inputs(&w.data.inputs) && check_outputs(
            &w.data.outputs,
        )) {
            return None;
        }
        Some(
            QueryResponseTyped {
                archive_height: widen_opt(w.archive_height),
                next_block: as_i64(w.next_block),
                total_execution_time: as_i64(w.total_execution_time),
                data: QueryResponseDataTyped {
                    blocks: decode_blocks(&w.data.blocks),
                    transactions: decode_transactions(&w.data.transactions),
                    receipts: decode_receipts(&w.data.receipts),
                    inputs: decode_inputs(&w.data.inputs),
                    outputs: decode_outputs(&w.data.outputs),
                },
            },
        )
    }
}

impl WireQueryResponse {
    /// Whether every byte field of every record can be rendered in hex.
    pub open spec fn hex_fits_all(&self) -> bool {
        &&& blocks_fit(self.data.blocks@)
        &&& transactions_fit(self.data.transactions@)
        &&& receipts_fit(self.data.receipts@)
        &&& inputs_fit(self.data.inputs@)
        &&& outputs_fit(self.data.outputs@)
    }
}

impl WireLogResponse {
    /// Whether every byte field of every log context can be rendered in hex.
    pub open spec fn hex_fits_all(&self) -> bool {
        logs_fit(self.data@)
    }
}

impl LogResponse {
    /// Whether this is the decoding of `w`.
    pub open spec fn decodes(&self, w: WireLogResponse) -> bool {
        &&& wide_opt_of(self.archive_height, w.archive_height)
        &&& self.next_block as int == widened(w.next_block)
        &&& self.total_execution_time as int == widened(w.total_execution_time)
        &&& logs_decoded(self.data@, w.data@)
    }

    /// Decodes a log query response; each register and debug field of a log
    /// context is widened on its own, present or not. Gives `None` only when
    /// a byte field is too long to render in hex.
    pub fn from_wire(w: &WireLogResponse) -> (r: Option<LogResponse>)
        ensures
            r is Some <==> w.hex_fits_all(),
            r is Some ==> r->Some_0.decodes(*w),
    {
        if !check_logs(&w.data) {
            return None;
        }
        Some(
            LogResponse {
                archive_height: widen_opt(w.archive_height),
                next_block: as_i64(w.next_block),
                total_execution_time: as_i64(w.total_execution_time),
                data: decode_logs(&w.data),
            },
        )
    }
}

/// A response whose source reports no height decodes to one without a
/// height, never to a zero or other stand-in.
pub proof fn lemma_absent_height(w: WireQueryResponse, r: QueryResponseTyped)
    requires
        w.archive_height is None,
        r.decodes(w),
    ensures
        r.archive_height is None,
{
}

} // verus!
