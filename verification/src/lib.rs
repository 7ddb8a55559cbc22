//! Verified core of the Chainsight command-line tool: the naming of project
//! paths, the generated manifests, templates and scripts, the bookkeeping of
//! deployed component ids, and the small parsers the tool relies on.

pub mod text;
pub mod json;
pub mod assoc;
pub mod paths;
pub mod dfx;
pub mod component_ids;
pub mod types;
pub mod principal;
pub mod common;
pub mod scripts;
pub mod templates;
pub mod utils;
pub mod algorithm_lens;
pub mod snapshot_indexer_https;
pub mod event_indexer;
pub mod oracle;
pub mod relayer;
pub mod snapshot;
pub mod snapshot_indexer;
pub mod snapshot_indexer_icp;
pub mod snapshot_indexer_evm;
pub mod algorithm_indexer;
pub mod components;
pub mod project;
pub mod interaction;
pub mod method_identifier;
pub mod cmc;
pub mod rpc_url;
pub mod abi;
pub mod identity;
pub mod ic_api;
pub mod src_string;
pub mod setup;
pub mod config;
pub mod logger;
pub mod canister_code;
pub mod snapshot_json_rpc;
pub mod laws;
