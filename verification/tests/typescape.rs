use std::collections::HashSet;

use namimado::typescape::{base32_16, http_endpoints, manifest_hash, mcp_tools, normalize_packs, pack_info, PackKind};

const PACK_FILES: &[&str] = &[
    "html5.lisp",
    "shadcn.lisp",
    "shadcn-emit.lisp",
    "mui.lisp",
    "bootstrap.lisp",
    "tailwind.lisp",
    "blocker-trackers.lisp",
    "vim-mode.lisp",
];

#[test]
fn typescape_contains_all_shipped_packs() {
    let packs = normalize_packs();
    let files: Vec<_> = packs.iter().map(|p| p.file.as_str()).collect();
    for expected in PACK_FILES {
        assert!(files.contains(expected), "missing pack file: {expected}");
    }
}

#[test]
fn packs_are_sorted_by_file_name() {
    let files: Vec<String> = normalize_packs().into_iter().map(|p| p.file).collect();
    let mut sorted = files.clone();
    sorted.sort();
    assert_eq!(files, sorted);
    assert_eq!(files.len(), 8);
    assert_eq!(files[0], "blocker-trackers.lisp");
    assert_eq!(files[4], "shadcn-emit.lisp");
    assert_eq!(files[5], "shadcn.lisp");
}

#[test]
fn typescape_hash_is_128_bit_base32() {
    let hash = manifest_hash(b"{\"name\":\"namimado\"}");
    assert_eq!(hash.len(), 26);
    for ch in hash.chars() {
        assert!(ch.is_ascii_lowercase() || ch.is_ascii_digit());
    }
}

#[test]
fn typescape_is_deterministic() {
    let a = manifest_hash(b"manifest");
    let b = manifest_hash(b"manifest");
    assert_eq!(a, b);
    assert_ne!(a, manifest_hash(b"manifest2"));
}

#[test]
fn manifest_hash_is_blake3_prefix_in_base32() {
    let digest = blake3::hash(b"abc");
    assert_eq!(manifest_hash(b"abc"), base32_16(&digest.as_bytes()[..16]));
}

#[test]
fn base32_matches_known_vectors() {
    assert_eq!(base32_16(b""), "");
    assert_eq!(base32_16(b"f"), "my");
    assert_eq!(base32_16(b"fo"), "mzxq");
    assert_eq!(base32_16(b"foo"), "mzxw6");
    assert_eq!(base32_16(b"foob"), "mzxw6yq");
    assert_eq!(base32_16(b"fooba"), "mzxw6ytb");
    assert_eq!(base32_16(b"foobar"), "mzxw6ytboi");
    assert_eq!(base32_16(&[0xff; 16]), "77777777777777777777777774");
    assert_eq!(base32_16(&[0u8; 16]), "aaaaaaaaaaaaaaaaaaaaaaaaaa");
}

#[test]
fn pack_kind_matches_filename_convention() {
    for pack in &normalize_packs() {
        let is_emit = pack.file.ends_with("-emit.lisp");
        let is_blocker = pack.file.starts_with("blocker-");
        let is_keybindings = pack.file.ends_with("-mode.lisp");
        match pack.kind {
            PackKind::Emit => assert!(is_emit, "pack {} marked Emit but not -emit.lisp", pack.file),
            PackKind::Blocker => assert!(is_blocker, "pack {} marked Blocker but not blocker-*", pack.file),
            PackKind::Keybindings => assert!(is_keybindings, "pack {} marked Keybindings", pack.file),
            PackKind::Inbound => {
                assert!(!is_emit, "pack {} marked Inbound but ends in -emit.lisp", pack.file);
                assert!(!is_blocker, "pack {} marked Inbound but starts with blocker-", pack.file);
                assert!(!is_keybindings, "pack {} marked Inbound but ends in -mode.lisp", pack.file);
            },
        }
    }
}

#[test]
fn unknown_pack_is_undocumented_inbound() {
    let p = pack_info("custom.lisp");
    assert_eq!(p.kind, PackKind::Inbound);
    assert_eq!(p.description, "(undocumented)");
    assert_eq!(pack_info("vim-mode.lisp").kind, PackKind::Keybindings);
}

#[test]
fn every_http_endpoint_has_method_path_description() {
    let eps = http_endpoints();
    assert!(!eps.is_empty());
    for ep in &eps {
        assert!(!ep.method.is_empty());
        assert!(ep.path.starts_with('/'));
        assert!(!ep.description.is_empty());
    }
}

#[test]
fn mcp_tool_names_are_unique() {
    let mut seen = HashSet::new();
    for t in &mcp_tools() {
        assert!(seen.insert(t.name.clone()), "duplicate MCP tool: {}", t.name);
    }
}

#[test]
fn http_endpoint_paths_are_unique() {
    let mut seen = HashSet::new();
    for ep in &http_endpoints() {
        let key = format!("{} {}", ep.method, ep.path);
        assert!(seen.insert(key.clone()), "duplicate HTTP endpoint: {key}");
    }
}

#[test]
fn endpoint_and_tool_counts() {
    assert_eq!(http_endpoints().len(), 38);
    assert_eq!(mcp_tools().len(), 38);
    assert_eq!(http_endpoints()[0].path, "/status");
    assert_eq!(mcp_tools()[0].name, "status");
}
