//! Typed account access and validation for a byte-buffer account model.
//!
//! Every piece of persistent state is a caller-supplied byte buffer tagged
//! with a one-byte type discriminator. This crate proves structural and
//! authorization properties about such buffers before their bytes are
//! interpreted: discriminator-tagged record encoding and decoding, the
//! header-plus-remainder layout for dynamically sized records, chainable
//! account validators, program-derived-address checks, and the lamport
//! transfer / account close lifecycle.

mod account;
mod address;
mod bytes;
mod checkers;
mod cli;
mod error;
mod instruction;
mod naming;
mod numeric;
mod pda;
mod record;
mod sample;
mod strings;

pub use account::{lemma_chain_short_circuit, lemma_derive_matches_seeds, Account};
pub use address::{
    default_authority, default_authority_address, sysvar_authority, sysvar_authority_address,
    Address,
};
pub use bytes::{le_bytes_of, le_decode, le_encode, le_value_of, pow256, write_bytes_at};
pub use checkers::{
    range_is_address, token_authority, token_authority_address, token_extensions_authority,
    token_extensions_authority_address, EmptyAccount, Pda, ProgramAccount, Signer,
    SysvarAccount, TokenAccountInfo,
};
pub use cli::{
    Args, BuildArgs, CleanArgs, Command, CommitmentLevel, KeysSubcommand, NewArgs,
    ProgramKeysArgs, TestArgs,
};
pub use error::AccountError;
pub use instruction::{
    allocate_ix_data, allocate_payload, assign_ix_data, assign_payload, create_account_ix_data,
    create_account_payload, lemma_system_instruction_tag_roundtrip, parse_instruction,
    plan_allocation, rent_minimum_balance, AllocationPlan, InstructionKind, SystemInstruction,
    transfer_ix_data, transfer_payload,
};
pub use naming::{
    camel_case, cap_word, capitalize_first, capitalized, is_separator, is_space, lib_case,
    lower_of, render_from, split_words, to_camel_case, to_lib_case, to_type_case, upper_of,
};
pub use numeric::{trunc_div, Numeric, FRAC_UNIT};
pub use pda::{derive_pda, pda_of, seeds_view, seeds_with_bump};
pub use record::{
    decode_u32_slice, encode_record, fixed_shape_ok, header_shape_ok, lemma_record_roundtrip,
    lemma_segments_disjoint, record_bytes, seg_len, seg_offset, segs_total, split_segments,
    try_from_bytes,
    try_header_from_bytes, try_write_bytes, try_write_header, Discriminator, Record,
};
pub use sample::{SampleHeader, SampleRecord};
pub use strings::{
    bytes_to_string, contains_bytes, contains_seq, count_matches, count_true, first_zero,
    split_bytes, string_to_bytes, utf8_lossy_of, ERROR_INVALID_UTF8, ERROR_STRING_TOO_LONG,
};
