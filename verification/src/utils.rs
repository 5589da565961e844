//! The library's functions under one path.

pub use crate::address::{address_or_error, str_to_bitcoin_address};
pub use crate::assemble::{assemble_transaction, calc_fee_and_build_transaction, select_utxos};
pub use crate::consensus::witnesses_fit_limit;
pub use crate::der::sign_to_der;
pub use crate::encoding::hex;
pub use crate::fee::{build_transaction, fee_for_len};
pub use crate::network::{network_to_string, to_bitcoin_network, to_ic_bitcoin_network};
pub use crate::principal::{
    check_normal_principal, mgmt_canister_id, principal_to_derivation_path,
};
pub use crate::sign::{
    apply_signatures, check_raw_signature, check_tx_hashes_len, mock_signer,
    sign_transaction_p2pkh, signature_digests, validate_p2pkh_address,
};
