use csx::templates::{
    accessors_cargo_toml, bindings_cargo_toml, canister_project_cargo_toml, dfx_json, gitignore, logic_cargo_toml,
    root_cargo_toml,
};

const PROJECT_NAME: &str = "sample";

const WORKSPACE_TAIL: &str = r#"

[workspace.package]
version = "0.1.0"
edition = "2021"

[workspace.dependencies]
candid = "0.9.6"
ic-cdk = "0.11.3"
ic-cdk-macros = "0.8.1"
ic-cdk-timers = "0.5.0"
ic-stable-structures = "0.5.5"
serde = "1.0.163"
serde_bytes = "0.11.12"
serde_json = "1.0.108"
hex = "0.4.3"

ic-web3-rs = "0.1.4"
ic-solidity-bindgen = "0.1.11"
chainsight-cdk-macros = { git = "https://github.com/horizonx-tech/chainsight-sdk.git", rev= "011a2b066743870ccc3b205f34fbcb028e11e880" }
chainsight-cdk = { git = "https://github.com/horizonx-tech/chainsight-sdk.git", rev= "011a2b066743870ccc3b205f34fbcb028e11e880" }
"#;

const MEMBERS: &str = r#""canisters/sample_snapshot", "logics/sample_snapshot", "canisters/sample_lens", "logics/sample_lens", "canisters/sample_relayer", "logics/sample_relayer""#;

#[test]
fn test_snapshot_root_cargo_toml() {
    let project_ids = vec![
        "sample_snapshot".to_string(),
        "sample_lens".to_string(),
        "sample_relayer".to_string(),
    ];
    assert_eq!(
        root_cargo_toml(project_ids.clone(), false, false),
        "[workspace]\nmembers = [".to_string() + MEMBERS + "]" + WORKSPACE_TAIL
    );
    assert_eq!(
        root_cargo_toml(project_ids.clone(), true, false),
        "[workspace]\nmembers = [".to_string() + MEMBERS + r#", "bindings/*"]"# + WORKSPACE_TAIL
    );
    assert_eq!(
        root_cargo_toml(project_ids.clone(), true, true),
        "[workspace]\nmembers = [".to_string() + MEMBERS + r#", "bindings/*", "accessors/*"]"# + WORKSPACE_TAIL
    );
}

#[test]
fn root_cargo_toml_without_components() {
    assert_eq!(root_cargo_toml(vec![], false, false), "[workspace]\nmembers = []".to_string() + WORKSPACE_TAIL);
    assert_eq!(
        root_cargo_toml(vec![], false, true),
        "[workspace]\nmembers = [\"accessors/*\"]".to_string() + WORKSPACE_TAIL
    );
}

#[test]
fn test_snapshot_logic_cargo_toml() {
    let dependencies = vec!["sample_snapshot".to_string(), "sample_lens".to_string()];
    assert_eq!(
        logic_cargo_toml(PROJECT_NAME, false, dependencies),
        r#"[package]
name = "sample"
version.workspace = true
edition.workspace = true

[lib]
crate-type = ["rlib"]

[dependencies]
candid.workspace = true
ic-cdk.workspace = true
ic-cdk-macros.workspace = true
ic-cdk-timers.workspace = true
ic-stable-structures.workspace = true
serde.workspace = true
serde_bytes.workspace = true
serde_json.workspace = true
hex.workspace = true

ic-web3-rs.workspace = true
ic-solidity-bindgen.workspace = true
chainsight-cdk-macros.workspace = true
chainsight-cdk.workspace = true


sample_accessors = { path = "../../accessors/sample_accessors" }
"#
    );
}

#[test]
fn logic_cargo_toml_with_bindings_and_no_dependencies() {
    let toml = logic_cargo_toml("lens", true, vec![]);
    assert!(toml.ends_with(
        "chainsight-cdk.workspace = true\n\nlens_bindings = { path = \"../../bindings/lens_bindings\" }\n\n"
    ));
}

#[test]
fn test_snapshot_accessors_cargo_toml() {
    let dependencies = vec!["sample_snapshot".to_string(), "sample_lens".to_string()];
    assert_eq!(
        accessors_cargo_toml(PROJECT_NAME, dependencies),
        r#"[package]
name = "sample_accessors"
version.workspace = true
edition.workspace = true

[lib]
crate-type = ["rlib"]

[dependencies]
candid.workspace = true
ic-cdk.workspace = true
ic-cdk-macros.workspace = true
ic-cdk-timers.workspace = true
ic-stable-structures.workspace = true
serde.workspace = true
serde_bytes.workspace = true
hex.workspace = true

ic-web3-rs.workspace = true
ic-solidity-bindgen.workspace = true
chainsight-cdk-macros.workspace = true
chainsight-cdk.workspace = true

sample_snapshot_bindings = { path = "../../bindings/sample_snapshot_bindings" }
sample_lens_bindings = { path = "../../bindings/sample_lens_bindings" }
"#
    );
}

#[test]
fn test_snapshot_canister_cargo_toml() {
    assert_eq!(
        canister_project_cargo_toml(PROJECT_NAME, false),
        r#"[package]
name = "sample_canister"
version.workspace = true
edition.workspace = true

[lib]
crate-type = ["cdylib"]

[dependencies]
candid.workspace = true
ic-cdk.workspace = true
ic-cdk-macros.workspace = true
ic-cdk-timers.workspace = true
ic-stable-structures.workspace = true
serde.workspace = true
serde_bytes.workspace = true
hex.workspace = true

ic-web3-rs.workspace = true
ic-solidity-bindgen.workspace = true
chainsight-cdk-macros.workspace = true
chainsight-cdk.workspace = true

ciborium = "0.2.1"

sample = { path = "../../logics/sample" }

"#
    );
}

#[test]
fn canister_cargo_toml_with_bindings() {
    assert!(canister_project_cargo_toml(PROJECT_NAME, true).ends_with(
        "sample = { path = \"../../logics/sample\" }\nsample_bindings = { path = \"../../bindings/sample_bindings\" }\n"
    ));
}

#[test]
fn test_snapshot_bindings_cargo_toml() {
    assert_eq!(
        bindings_cargo_toml(PROJECT_NAME),
        r#"[package]
name = "sample_bindings"
version.workspace = true
edition.workspace = true

[lib]
crate-type = ["rlib"]

[dependencies]
candid.workspace = true
ic-cdk.workspace = true
ic-stable-structures.workspace = true
serde.workspace = true
serde_bytes.workspace = true

chainsight-cdk-macros.workspace = true
chainsight-cdk.workspace = true
"#
    );
}

fn canister_entry(label: &str) -> String {
    [
        "    \"", label, "\": {\n",
        "      \"type\": \"custom\",\n",
        "      \"candid\": \"./", label, ".did\",\n",
        "      \"wasm\": \"./", label, ".wasm\",\n",
        "      \"metadata\": [\n",
        "        {\n",
        "          \"name\": \"candid:service\",\n",
        "          \"visibility\": \"public\"\n",
        "        }\n",
        "      ]\n",
        "    }",
    ]
    .concat()
}

const DFX_TAIL: &str = r#"
  },
  "defaults": {
    "build": {
      "packtool": "",
      "args": ""
    }
  },
  "output_env_file": ".env"
}
"#;

#[test]
fn test_snapshot_dfx_json() {
    let project_ids = vec![
        "sample_snapshot".to_string(),
        "sample_lens".to_string(),
        "sample_relayer".to_string(),
    ];
    let expected = "{\n  \"version\": 1,\n  \"canisters\": {\n".to_string()
        + &canister_entry("sample_snapshot")
        + ",\n"
        + &canister_entry("sample_lens")
        + ",\n"
        + &canister_entry("sample_relayer")
        + DFX_TAIL;
    assert_eq!(dfx_json(project_ids), expected);
}

#[test]
fn dfx_json_without_canisters() {
    assert_eq!(dfx_json(vec![]), "{\n  \"version\": 1,\n  \"canisters\": {\n".to_string() + DFX_TAIL);
}

#[test]
fn test_snapshot_gitignore() {
    assert_eq!(
        gitignore(),
        r#"src/__interfaces
src/accessors
src/bindings
src/canisters
src/target
/artifacts/*
!/artifacts/dfx.json
!/artifacts/canister_ids.json
.env
"#
    );
}
