//! The browser's self-description: the rule packs it ships, the HTTP
//! endpoints and MCP tools it exposes, and the content hash that attests
//! the whole manifest (BLAKE3, 128 bits, lower-case base32).

use vstd::prelude::*;

use crate::text::{chars_of, push_char, str_eq};

verus! {

broadcast use vstd::seq_lib::group_to_multiset_ensures;

/// What a rule pack does.
#[derive(Debug, Clone, Copy, PartialEq, Eq, Structural)]
pub enum PackKind {
    /// Inbound: framework-specific markup to canonical `n-*` tags.
    Inbound,
    /// Outbound: canonical `n-*` tags to a framework-specific shape.
    Emit,
    /// Content blocking: domain and selector rules stripping trackers.
    Blocker,
    /// Keyboard pack: command and binding forms.
    Keybindings,
}

/// A rule pack shipped with the browser.
#[derive(Debug, Clone)]
pub struct NormalizePackInfo {
    pub file: String,
    pub kind: PackKind,
    pub description: String,
}

/// The model of a pack entry.
pub struct NormalizePackInfoView {
    pub file: Seq<char>,
    pub kind: PackKind,
    pub description: Seq<char>,
}

impl View for NormalizePackInfo {
    type V = NormalizePackInfoView;

    open spec fn view(&self) -> NormalizePackInfoView {
        NormalizePackInfoView { file: self.file@, kind: self.kind, description: self.description@ }
    }
}

/// An HTTP endpoint of the control API.
#[derive(Debug, Clone)]
pub struct HttpEndpointInfo {
    pub method: String,
    pub path: String,
    pub description: String,
}

/// The model of an endpoint entry.
pub struct HttpEndpointView {
    pub method: Seq<char>,
    pub path: Seq<char>,
    pub description: Seq<char>,
}

impl View for HttpEndpointInfo {
    type V = HttpEndpointView;

    open spec fn view(&self) -> HttpEndpointView {
        HttpEndpointView { method: self.method@, path: self.path@, description: self.description@ }
    }
}

/// A tool of the MCP server.
#[derive(Debug, Clone)]
pub struct McpToolInfo {
    pub name: String,
    pub description: String,
}

/// The model of a tool entry.
pub struct McpToolView {
    pub name: Seq<char>,
    pub description: Seq<char>,
}

impl View for McpToolInfo {
    type V = McpToolView;

    open spec fn view(&self) -> McpToolView {
        McpToolView { name: self.name@, description: self.description@ }
    }
}

/// The views of a sequence of pack entries.
pub open spec fn pack_views(s: Seq<NormalizePackInfo>) -> Seq<NormalizePackInfoView> {
    s.map_values(|p: NormalizePackInfo| p@)
}

/// The views of a sequence of endpoint entries.
pub open spec fn endpoint_views(s: Seq<HttpEndpointInfo>) -> Seq<HttpEndpointView> {
    s.map_values(|e: HttpEndpointInfo| e@)
}

/// The views of a sequence of tool entries.
pub open spec fn tool_views(s: Seq<McpToolInfo>) -> Seq<McpToolView> {
    s.map_values(|t: McpToolInfo| t@)
}

// ---------------------------------------------------------------- packs

/// The file names of the shipped packs, in the order they are listed.
pub open spec fn shipped_pack_files() -> Seq<Seq<char>> {
    seq![
        "html5.lisp"@,
        "shadcn.lisp"@,
        "shadcn-emit.lisp"@,
        "mui.lisp"@,
        "bootstrap.lisp"@,
        "tailwind.lisp"@,
        "blocker-trackers.lisp"@,
        "vim-mode.lisp"@
    ]
}

/// The kind of the pack in `file`: emit, blocker and keyboard packs are
/// known by name; everything else is inbound.
pub open spec fn pack_kind_for(file: Seq<char>) -> PackKind {
    if file == "shadcn-emit.lisp"@ {
        PackKind::Emit
    } else if file == "blocker-trackers.lisp"@ {
        PackKind::Blocker
    } else if file == "vim-mode.lisp"@ {
        PackKind::Keybindings
    } else {
        PackKind::Inbound
    }
}

/// The description of the pack in `file`.
pub open spec fn pack_description_for(file: Seq<char>) -> Seq<char> {
    if file == "html5.lisp"@ {
        "HTML5 semantic tags → n-*"@
    } else if file == "shadcn.lisp"@ {
        "shadcn/radix data-slot idioms → n-*"@
    } else if file == "shadcn-emit.lisp"@ {
        "n-* → shadcn-shaped DOM"@
    } else if file == "mui.lisp"@ {
        "MUI component root classes → n-*"@
    } else if file == "bootstrap.lisp"@ {
        "Bootstrap component classes → n-*"@
    } else if file == "tailwind.lisp"@ {
        "Tailwind utility-class patterns → n-*"@
    } else if file == "blocker-trackers.lisp"@ {
        "Third-party trackers + ad-network blocklist"@
    } else if file == "vim-mode.lisp"@ {
        "Vim-mode defaults — modal navigation, scroll, reader/blocker toggles"@
    } else {
        "(undocumented)"@
    }
}

/// The entry for the pack in `file`.
pub open spec fn pack_info_for(file: Seq<char>) -> NormalizePackInfoView {
    NormalizePackInfoView { file, kind: pack_kind_for(file), description: pack_description_for(file) }
}

/// The entries of the shipped packs, in the order they are listed.
pub open spec fn shipped_pack_infos() -> Seq<NormalizePackInfoView> {
    shipped_pack_files().map_values(|f: Seq<char>| pack_info_for(f))
}

/// `a` comes before `b` in the order of `str::cmp`: character by character
/// (code points order as the UTF-8 bytes do), a proper prefix first.
pub open spec fn text_lt(a: Seq<char>, b: Seq<char>) -> bool
    decreases a.len(),
{
    if a.len() == 0 {
        b.len() > 0
    } else if b.len() == 0 {
        false
    } else if a[0] != b[0] {
        (a[0] as u32) < (b[0] as u32)
    } else {
        text_lt(a.skip(1), b.skip(1))
    }
}

/// No entry of `s` comes after a later one in file-name order.
pub open spec fn sorted_by_file(s: Seq<NormalizePackInfoView>) -> bool {
    forall|i: int, j: int| 0 <= i < j < s.len() ==> !text_lt(#[trigger] s[j].file, #[trigger] s[i].file)
}

/// Text order is asymmetric.
pub proof fn lemma_text_lt_asymmetric(a: Seq<char>, b: Seq<char>)
    ensures
        !(text_lt(a, b) && text_lt(b, a)),
    decreases a.len(),
{
    if a.len() > 0 && b.len() > 0 && a[0] == b[0] {
        lemma_text_lt_asymmetric(a.skip(1), b.skip(1));
    }
}

/// Text order is transitive.
pub proof fn lemma_text_lt_transitive(a: Seq<char>, b: Seq<char>, c: Seq<char>)
    requires
        text_lt(a, b),
        text_lt(b, c),
    ensures
        text_lt(a, c),
    decreases a.len(),
{
    if a.len() > 0 && a[0] == b[0] && b[0] == c[0] {
        lemma_text_lt_transitive(a.skip(1), b.skip(1), c.skip(1));
    }
}

/// Whether `a` comes before `b` in text order.
fn text_before(a: &str, b: &str) -> (res: bool)
    ensures
        res == text_lt(a@, b@),
{
    let ac = chars_of(a);
    let bc = chars_of(b);
    let mut k: usize = 0;
    proof {
        assert(a@.skip(0) =~= a@);
        assert(b@.skip(0) =~= b@);
    }
    while k < ac.len() && k < bc.len() && ac[k] == bc[k]
        invariant
            ac@ == a@,
            bc@ == b@,
            k <= a@.len(),
            k <= b@.len(),
            text_lt(a@, b@) == text_lt(a@.skip(k as int), b@.skip(k as int)),
        decreases a@.len() - k,
    {
        proof {
            assert(a@.skip(k as int).skip(1) =~= a@.skip(k + 1));
            assert(b@.skip(k as int).skip(1) =~= b@.skip(k + 1));
        }
        k = k + 1;
    }
    if k == ac.len() {
        k < bc.len()
    } else if k == bc.len() {
        false
    } else {
        (ac[k] as u32) < (bc[k] as u32)
    }
}

/// The entry for the pack in `file`.
pub fn pack_info(file: &str) -> (res: NormalizePackInfo)
    ensures
        res@ == pack_info_for(file@),
{
    let kind = if str_eq(file, "shadcn-emit.lisp") {
        PackKind::Emit
    } else if str_eq(file, "blocker-trackers.lisp") {
        PackKind::Blocker
    } else if str_eq(file, "vim-mode.lisp") {
        PackKind::Keybindings
    } else {
        PackKind::Inbound
    };
    let description = if str_eq(file, "html5.lisp") {
        "HTML5 semantic tags → n-*"
    } else if str_eq(file, "shadcn.lisp") {
        "shadcn/radix data-slot idioms → n-*"
    } else if str_eq(file, "shadcn-emit.lisp") {
        "n-* → shadcn-shaped DOM"
    } else if str_eq(file, "mui.lisp") {
        "MUI component root classes → n-*"
    } else if str_eq(file, "bootstrap.lisp") {
        "Bootstrap component classes → n-*"
    } else if str_eq(file, "tailwind.lisp") {
        "Tailwind utility-class patterns → n-*"
    } else if str_eq(file, "blocker-trackers.lisp") {
        "Third-party trackers + ad-network blocklist"
    } else if str_eq(file, "vim-mode.lisp") {
        "Vim-mode defaults — modal navigation, scroll, reader/blocker toggles"
    } else {
        "(undocumented)"
    };
    NormalizePackInfo { file: String::from_str(file), kind, description: String::from_str(description) }
}

/// The shipped pack files, in the order they are listed.
fn pack_files() -> (res: Vec<&'static str>)
    ensures
        res@.map_values(|f: &str| f@) == shipped_pack_files(),
{
    let mut v: Vec<&'static str> = Vec::new();
    v.push("html5.lisp");
    v.push("shadcn.lisp");
    v.push("shadcn-emit.lisp");
    v.push("mui.lisp");
    v.push("bootstrap.lisp");
    v.push("tailwind.lisp");
    v.push("blocker-trackers.lisp");
    v.push("vim-mode.lisp");
    proof {
        assert(v@.map_values(|f: &str| f@) =~= shipped_pack_files());
    }
    v
}

/// Insert `p` into the file-ordered `sorted`, after every entry that does
/// not come after it.
fn insert_by_file(sorted: &mut Vec<NormalizePackInfo>, p: NormalizePackInfo)
    requires
        sorted_by_file(pack_views(old(sorted)@)),
    ensures
        sorted_by_file(pack_views(final(sorted)@)),
        pack_views(final(sorted)@).to_multiset() == pack_views(old(sorted)@).to_multiset().insert(p@),
{
    let ghost s = pack_views(sorted@);
    let mut pos: usize = 0;
    while pos < sorted.len() && !text_before(p.file.as_str(), sorted[pos].file.as_str())
        invariant
            pos <= s.len(),
            s == pack_views(sorted@),
            forall|m: int| 0 <= m < pos ==> !text_lt(p@.file, #[trigger] s[m].file),
        decreases s.len() - pos,
    {
        pos = pos + 1;
    }
    sorted.insert(pos, p);
    proof {
        let t = pack_views(sorted@);
        assert(t =~= s.insert(pos as int, p@));
        assert forall|i: int, j: int| 0 <= i < j < t.len() implies !text_lt(#[trigger] t[j].file, #[trigger] t[i].file) by {
            if i < pos && j == pos {
            } else if i == pos && j > pos {
                lemma_text_lt_asymmetric(t[j].file, p@.file);
                if text_lt(t[j].file, p@.file) {
                    if j - 1 > pos {
                        assert(!text_lt(s[j - 1].file, s[pos as int].file));
                        lemma_text_lt_transitive(s[j - 1].file, p@.file, s[pos as int].file);
                    }
                }
            } else if i < pos && j > pos {
                assert(!text_lt(s[j - 1].file, s[i].file));
            } else if j < pos {
            } else {
                assert(!text_lt(s[j - 1].file, s[i - 1].file));
            }
        }
    }
}

/// The shipped packs, ordered by file name.
pub fn normalize_packs() -> (res: Vec<NormalizePackInfo>)
    ensures
        sorted_by_file(pack_views(res@)),
        pack_views(res@).to_multiset() == shipped_pack_infos().to_multiset(),
{
    let files = pack_files();
    let mut packs: Vec<NormalizePackInfo> = Vec::new();
    let mut i: usize = 0;
    while i < files.len()
        invariant
            i <= files@.len(),
            files@.map_values(|f: &str| f@) == shipped_pack_files(),
            sorted_by_file(pack_views(packs@)),
            pack_views(packs@).to_multiset() == shipped_pack_infos().take(i as int).to_multiset(),
        decreases files@.len() - i,
    {
        let p = pack_info(files[i]);
        insert_by_file(&mut packs, p);
        proof {
            assert(shipped_pack_infos().take(i + 1) =~= shipped_pack_infos().take(i as int).push(p@));
        }
        i = i + 1;
    }
    proof {
        assert(shipped_pack_infos().take(i as int) =~= shipped_pack_infos());
    }
    packs
}

// ------------------------------------------------------------ endpoints

/// The HTTP endpoints of the control API, in the order they are listed.
pub open spec fn endpoint_table() -> Seq<HttpEndpointView> {
    seq![
        HttpEndpointView { method: "GET"@, path: "/status"@, description: "Liveness + feature set + loaded_at + reload_count."@ },
        HttpEndpointView { method: "POST"@, path: "/navigate"@, description: "Navigate URL through the full Lisp substrate pipeline."@ },
        HttpEndpointView { method: "GET"@, path: "/report"@, description: "Structured substrate report from the last navigate."@ },
        HttpEndpointView { method: "GET"@, path: "/state"@, description: "Current state-store snapshot."@ },
        HttpEndpointView { method: "GET"@, path: "/dom"@, description: "Last navigated page as S-expression."@ },
        HttpEndpointView { method: "GET"@, path: "/rules"@, description: "Full DSL rule inventory by keyword."@ },
        HttpEndpointView { method: "POST"@, path: "/reload"@, description: "Re-scan rc files + substrate.d/; swap pipeline."@ },
        HttpEndpointView { method: "GET"@, path: "/openapi.yaml"@, description: "This control API as OpenAPI 3.0.3 YAML."@ },
        HttpEndpointView { method: "GET"@, path: "/openapi.json"@, description: "OpenAPI spec as JSON."@ },
        HttpEndpointView { method: "GET"@, path: "/typescape"@, description: "This typescape manifest (self-describing)."@ },
        HttpEndpointView { method: "GET"@, path: "/ui"@, description: "Embedded inspector SPA."@ },
        HttpEndpointView { method: "GET"@, path: "/accessibility"@, description: "ARIA accessibility tree of the last navigated page (canonical n-* IS the role map)."@ },
        HttpEndpointView { method: "GET"@, path: "/theme"@, description: "Current irodzuki ColorScheme as JSON — palette the GPU window + /ui both inherit."@ },
        HttpEndpointView { method: "GET"@, path: "/theme.css"@, description: "Same scheme as CSS custom properties (`:root { --bg: …; --fg: …; --accent: …; }`) — the inspector SPA links this so a scheme swap propagates without a rebuild."@ },
        HttpEndpointView { method: "GET"@, path: "/history"@, description: "Browsing history; `?q=` searches, `?limit=N` recent."@ },
        HttpEndpointView { method: "DELETE"@, path: "/history"@, description: "Clear all history."@ },
        HttpEndpointView { method: "GET"@, path: "/bookmarks"@, description: "List all bookmarks."@ },
        HttpEndpointView { method: "POST"@, path: "/bookmarks"@, description: "Add a bookmark."@ },
        HttpEndpointView { method: "DELETE"@, path: "/bookmarks"@, description: "Remove a bookmark (`?url=…`)."@ },
        HttpEndpointView { method: "GET"@, path: "/storage"@, description: "Per-store summary of every (defstorage …) declared store."@ },
        HttpEndpointView { method: "GET"@, path: "/storage/:name"@, description: "Full entry snapshot for one store (or single value with `?key=…`)."@ },
        HttpEndpointView { method: "POST"@, path: "/storage/:name"@, description: "Write one key→value into a store (body `{key,value}`)."@ },
        HttpEndpointView { method: "DELETE"@, path: "/storage/:name"@, description: "Delete one key from a store (`?key=…`)."@ },
        HttpEndpointView { method: "GET"@, path: "/storage/:name/index"@, description: "List declared indexes + distinct projected values."@ },
        HttpEndpointView { method: "GET"@, path: "/storage/:name/index/:path"@, description: "Entries whose value at `path` equals `?value=…` (O(log n))."@ },
        HttpEndpointView { method: "GET"@, path: "/reader"@, description: "Readability-style simplified view of the last navigated page (name=PROFILE selects)."@ },
        HttpEndpointView { method: "GET"@, path: "/extensions"@, description: "Installed extension summary."@ },
        HttpEndpointView { method: "POST"@, path: "/extensions"@, description: "Install an extension from raw Lisp source."@ },
        HttpEndpointView { method: "GET"@, path: "/extensions/:name"@, description: "Full ExtensionSpec for one installed extension."@ },
        HttpEndpointView { method: "DELETE"@, path: "/extensions/:name"@, description: "Uninstall an extension."@ },
        HttpEndpointView { method: "POST"@, path: "/extensions/:name/enabled"@, description: "Toggle enabled state at runtime."@ },
        HttpEndpointView { method: "GET"@, path: "/commands"@, description: "Every (defcommand) + the chords that bind to it."@ },
        HttpEndpointView { method: "POST"@, path: "/commands/dispatch"@, description: "Simulate a typed key sequence; returns run/prefix/miss."@ },
        HttpEndpointView { method: "GET"@, path: "/omnibox"@, description: "URL-bar autocomplete — ranks history+bookmarks+commands+search providers. `?q=…&profile=…`."@ },
        HttpEndpointView { method: "POST"@, path: "/extensions/verify"@, description: "Verify a SignedExtension envelope against the trust DB."@ },
        HttpEndpointView { method: "GET"@, path: "/trustdb"@, description: "List every trusted ed25519 pubkey (base64)."@ },
        HttpEndpointView { method: "POST"@, path: "/trustdb"@, description: "Add a base64 ed25519 pubkey to the trust DB."@ },
        HttpEndpointView { method: "DELETE"@, path: "/trustdb/:pubkey"@, description: "Revoke a trusted pubkey."@ }
    ]
}

/// The MCP tools, in the order they are listed.
pub open spec fn tool_table() -> Seq<McpToolView> {
    seq![
        McpToolView { name: "status"@, description: "Namimado status — delegates to /status."@ },
        McpToolView { name: "version"@, description: "Crate version."@ },
        McpToolView { name: "navigate"@, description: "Navigate URL through the Lisp substrate."@ },
        McpToolView { name: "get_last_report"@, description: "Structured substrate report from most recent navigate."@ },
        McpToolView { name: "get_state"@, description: "Current state-store snapshot."@ },
        McpToolView { name: "get_dom_sexp"@, description: "Last navigated page absorbed into Lisp space."@ },
        McpToolView { name: "get_rules"@, description: "DSL rule inventory by keyword."@ },
        McpToolView { name: "reload"@, description: "Re-scan rc files + substrate.d/."@ },
        McpToolView { name: "new_tab"@, description: "(stub) open a new tab — requires running window."@ },
        McpToolView { name: "close_tab"@, description: "(stub) close a tab — requires running window."@ },
        McpToolView { name: "list_tabs"@, description: "(stub) list tabs — requires running window."@ },
        McpToolView { name: "get_bookmarks"@, description: "(stub) list bookmarks."@ },
        McpToolView { name: "add_bookmark"@, description: "(stub) bookmark a URL."@ },
        McpToolView { name: "config_get"@, description: "Read a config value by dotted key."@ },
        McpToolView { name: "config_set"@, description: "(runtime-only) set a config value."@ },
        McpToolView { name: "get_accessibility_tree"@, description: "ARIA AX tree from the last navigate — canonical n-* → role."@ },
        McpToolView { name: "history_recent"@, description: "Most recent browsing history entries — auto-recorded on every navigate."@ },
        McpToolView { name: "history_search"@, description: "Search history by title/URL substring."@ },
        McpToolView { name: "storage_list"@, description: "Per-store summary of every (defstorage …) declared store."@ },
        McpToolView { name: "storage_entries"@, description: "Full key→value snapshot of one store."@ },
        McpToolView { name: "storage_get"@, description: "Read one key from a store."@ },
        McpToolView { name: "storage_set"@, description: "Write one key→value into a store."@ },
        McpToolView { name: "storage_delete"@, description: "Delete one key from a store."@ },
        McpToolView { name: "storage_index_list"@, description: "Declared secondary indexes + distinct values."@ },
        McpToolView { name: "storage_by_index"@, description: "O(log n) entry lookup by indexed projection."@ },
        McpToolView { name: "reader"@, description: "Readability-style simplified view of the last navigated page."@ },
        McpToolView { name: "extensions_list"@, description: "Installed extension summary."@ },
        McpToolView { name: "extension_get"@, description: "Full ExtensionSpec for one extension."@ },
        McpToolView { name: "extension_install"@, description: "Install (defextension) bundle from raw Lisp source."@ },
        McpToolView { name: "extension_set_enabled"@, description: "Toggle extension enabled state at runtime."@ },
        McpToolView { name: "extension_remove"@, description: "Uninstall an extension."@ },
        McpToolView { name: "commands_list"@, description: "Every (defcommand) + its bound chords."@ },
        McpToolView { name: "dispatch_key"@, description: "Simulate a typed key sequence against (defbind)s."@ },
        McpToolView { name: "omnibox"@, description: "URL-bar autocomplete — history+bookmarks+commands+search+navigate."@ },
        McpToolView { name: "verify_extension"@, description: "Verify a SignedExtension against the trust DB."@ },
        McpToolView { name: "trustdb_list"@, description: "List every trusted ed25519 pubkey."@ },
        McpToolView { name: "trustdb_add"@, description: "Add a pubkey to the trust DB."@ },
        McpToolView { name: "trustdb_revoke"@, description: "Revoke a trusted pubkey."@ }
    ]
}

/// An endpoint entry.
fn endpoint(method: &str, path: &str, description: &str) -> (e: HttpEndpointInfo)
    ensures
        e@ == (HttpEndpointView { method: method@, path: path@, description: description@ }),
{
    HttpEndpointInfo {
        method: String::from_str(method),
        path: String::from_str(path),
        description: String::from_str(description),
    }
}

/// A tool entry.
fn tool(name: &str, description: &str) -> (t: McpToolInfo)
    ensures
        t@ == (McpToolView { name: name@, description: description@ }),
{
    McpToolInfo { name: String::from_str(name), description: String::from_str(description) }
}

/// The HTTP endpoints the control API exposes.
pub fn http_endpoints() -> (res: Vec<HttpEndpointInfo>)
    ensures
        endpoint_views(res@) == endpoint_table(),
{
    let mut v: Vec<HttpEndpointInfo> = Vec::new();
    v.push(endpoint("GET", "/status", "Liveness + feature set + loaded_at + reload_count."));
    v.push(endpoint("POST", "/navigate", "Navigate URL through the full Lisp substrate pipeline."));
    v.push(endpoint("GET", "/report", "Structured substrate report from the last navigate."));
    v.push(endpoint("GET", "/state", "Current state-store snapshot."));
    v.push(endpoint("GET", "/dom", "Last navigated page as S-expression."));
    v.push(endpoint("GET", "/rules", "Full DSL rule inventory by keyword."));
    v.push(endpoint("POST", "/reload", "Re-scan rc files + substrate.d/; swap pipeline."));
    v.push(endpoint("GET", "/openapi.yaml", "This control API as OpenAPI 3.0.3 YAML."));
    v.push(endpoint("GET", "/openapi.json", "OpenAPI spec as JSON."));
    v.push(endpoint("GET", "/typescape", "This typescape manifest (self-describing)."));
    v.push(endpoint("GET", "/ui", "Embedded inspector SPA."));
    v.push(endpoint("GET", "/accessibility", "ARIA accessibility tree of the last navigated page (canonical n-* IS the role map)."));
    v.push(endpoint("GET", "/theme", "Current irodzuki ColorScheme as JSON — palette the GPU window + /ui both inherit."));
    v.push(endpoint("GET", "/theme.css", "Same scheme as CSS custom properties (`:root { --bg: …; --fg: …; --accent: …; }`) — the inspector SPA links this so a scheme swap propagates without a rebuild."));
    v.push(endpoint("GET", "/history", "Browsing history; `?q=` searches, `?limit=N` recent."));
    v.push(endpoint("DELETE", "/history", "Clear all history."));
    v.push(endpoint("GET", "/bookmarks", "List all bookmarks."));
    v.push(endpoint("POST", "/bookmarks", "Add a bookmark."));
    v.push(endpoint("DELETE", "/bookmarks", "Remove a bookmark (`?url=…`)."));
    v.push(endpoint("GET", "/storage", "Per-store summary of every (defstorage …) declared store."));
    v.push(endpoint("GET", "/storage/:name", "Full entry snapshot for one store (or single value with `?key=…`)."));
    v.push(endpoint("POST", "/storage/:name", "Write one key→value into a store (body `{key,value}`)."));
    v.push(endpoint("DELETE", "/storage/:name", "Delete one key from a store (`?key=…`)."));
    v.push(endpoint("GET", "/storage/:name/index", "List declared indexes + distinct projected values."));
    v.push(endpoint("GET", "/storage/:name/index/:path", "Entries whose value at `path` equals `?value=…` (O(log n))."));
    v.push(endpoint("GET", "/reader", "Readability-style simplified view of the last navigated page (name=PROFILE selects)."));
    v.push(endpoint("GET", "/extensions", "Installed extension summary."));
    v.push(endpoint("POST", "/extensions", "Install an extension from raw Lisp source."));
    v.push(endpoint("GET", "/extensions/:name", "Full ExtensionSpec for one installed extension."));
    v.push(endpoint("DELETE", "/extensions/:name", "Uninstall an extension."));
    v.push(endpoint("POST", "/extensions/:name/enabled", "Toggle enabled state at runtime."));
    v.push(endpoint("GET", "/commands", "Every (defcommand) + the chords that bind to it."));
    v.push(endpoint("POST", "/commands/dispatch", "Simulate a typed key sequence; returns run/prefix/miss."));
    v.push(endpoint("GET", "/omnibox", "URL-bar autocomplete — ranks history+bookmarks+commands+search providers. `?q=…&profile=…`."));
    v.push(endpoint("POST", "/extensions/verify", "Verify a SignedExtension envelope against the trust DB."));
    v.push(endpoint("GET", "/trustdb", "List every trusted ed25519 pubkey (base64)."));
    v.push(endpoint("POST", "/trustdb", "Add a base64 ed25519 pubkey to the trust DB."));
    v.push(endpoint("DELETE", "/trustdb/:pubkey", "Revoke a trusted pubkey."));
    proof {
        assert(endpoint_views(v@) =~= endpoint_table());
    }
    v
}

/// The tools the MCP server exposes.
pub fn mcp_tools() -> (res: Vec<McpToolInfo>)
    ensures
        tool_views(res@) == tool_table(),
{
    let mut v: Vec<McpToolInfo> = Vec::new();
    v.push(tool("status", "Namimado status — delegates to /status."));
    v.push(tool("version", "Crate version."));
    v.push(tool("navigate", "Navigate URL through the Lisp substrate."));
    v.push(tool("get_last_report", "Structured substrate report from most recent navigate."));
    v.push(tool("get_state", "Current state-store snapshot."));
    v.push(tool("get_dom_sexp", "Last navigated page absorbed into Lisp space."));
    v.push(tool("get_rules", "DSL rule inventory by keyword."));
    v.push(tool("reload", "Re-scan rc files + substrate.d/."));
    v.push(tool("new_tab", "(stub) open a new tab — requires running window."));
    v.push(tool("close_tab", "(stub) close a tab — requires running window."));
    v.push(tool("list_tabs", "(stub) list tabs — requires running window."));
    v.push(tool("get_bookmarks", "(stub) list bookmarks."));
    v.push(tool("add_bookmark", "(stub) bookmark a URL."));
    v.push(tool("config_get", "Read a config value by dotted key."));
    v.push(tool("config_set", "(runtime-only) set a config value."));
    v.push(tool("get_accessibility_tree", "ARIA AX tree from the last navigate — canonical n-* → role."));
    v.push(tool("history_recent", "Most recent browsing history entries — auto-recorded on every navigate."));
    v.push(tool("history_search", "Search history by title/URL substring."));
    v.push(tool("storage_list", "Per-store summary of every (defstorage …) declared store."));
    v.push(tool("storage_entries", "Full key→value snapshot of one store."));
    v.push(tool("storage_get", "Read one key from a store."));
    v.push(tool("storage_set", "Write one key→value into a store."));
    v.push(tool("storage_delete", "Delete one key from a store."));
    v.push(tool("storage_index_list", "Declared secondary indexes + distinct values."));
    v.push(tool("storage_by_index", "O(log n) entry lookup by indexed projection."));
    v.push(tool("reader", "Readability-style simplified view of the last navigated page."));
    v.push(tool("extensions_list", "Installed extension summary."));
    v.push(tool("extension_get", "Full ExtensionSpec for one extension."));
    v.push(tool("extension_install", "Install (defextension) bundle from raw Lisp source."));
    v.push(tool("extension_set_enabled", "Toggle extension enabled state at runtime."));
    v.push(tool("extension_remove", "Uninstall an extension."));
    v.push(tool("commands_list", "Every (defcommand) + its bound chords."));
    v.push(tool("dispatch_key", "Simulate a typed key sequence against (defbind)s."));
    v.push(tool("omnibox", "URL-bar autocomplete — history+bookmarks+commands+search+navigate."));
    v.push(tool("verify_extension", "Verify a SignedExtension against the trust DB."));
    v.push(tool("trustdb_list", "List every trusted ed25519 pubkey."));
    v.push(tool("trustdb_add", "Add a pubkey to the trust DB."));
    v.push(tool("trustdb_revoke", "Revoke a trusted pubkey."));
    proof {
        assert(tool_views(v@) =~= tool_table());
    }
    v
}

// ----------------------------------------------------------------- hash

/// Bit `k` (0 the most significant) of the byte `b`.
pub open spec fn byte_bit(b: u8, k: int) -> bool {
    ((b >> ((7 - k) as u8)) & 1u8) == 1u8
}

/// The bits of `bytes`, most significant first.
pub open spec fn bits_of(bytes: Seq<u8>) -> Seq<bool> {
    Seq::new((8 * bytes.len()) as nat, |i: int| byte_bit(bytes[i / 8], i % 8))
}

/// The value of bit `i` of `bits`, 0 past the end.
pub open spec fn bit_value(bits: Seq<bool>, i: int) -> nat {
    if 0 <= i < bits.len() && bits[i] {
        1
    } else {
        0
    }
}

/// The five bits of `bits` from `start`, zero-padded past the end, as a
/// number.
pub open spec fn group_at(bits: Seq<bool>, start: int) -> nat {
    16 * bit_value(bits, start) + 8 * bit_value(bits, start + 1) + 4 * bit_value(bits, start + 2)
        + 2 * bit_value(bits, start + 3) + bit_value(bits, start + 4)
}

/// The base32 digit for `d < 32`: `a`..`z`, then `2`..`7`.
pub open spec fn base32_char(d: nat) -> char {
    if d < 26 {
        (97 + d) as char
    } else {
        (24 + d) as char
    }
}

/// A lower-case base32 digit.
pub open spec fn is_base32_char(c: char) -> bool {
    ('a' <= c && c <= 'z') || ('2' <= c && c <= '7')
}

/// `bytes` in lower-case base32 without padding: each five bits, the last
/// group filled with zero bits, give one digit.
pub open spec fn base32(bytes: Seq<u8>) -> Seq<char> {
    let bits = bits_of(bytes);
    Seq::new(((bits.len() + 4) / 5) as nat, |k: int| base32_char(group_at(bits, 5 * k)))
}

/// Bit `i` of `bytes` (0 past the `total` bits).
fn bit_at(bytes: &[u8], total: usize, i: usize) -> (v: u8)
    requires
        total == 8 * bytes@.len(),
    ensures
        v == bit_value(bits_of(bytes@), i as int),
{
    if i < total {
        let b = bytes[i / 8];
        let shift = (7 - i % 8) as u8;
        let v = (b >> shift) & 1u8;
        proof {
            assert(v == 0 || v == 1) by (bit_vector)
                requires
                    v == (b >> shift) & 1u8,
            ;
            assert(bits_of(bytes@)[i as int] == byte_bit(bytes@[(i / 8) as int], (i % 8) as int));
        }
        v
    } else {
        0
    }
}

/// The base32 digit for `d`.
fn base32_digit(d: u8) -> (c: char)
    requires
        d < 32,
    ensures
        c == base32_char(d as nat),
        is_base32_char(c),
{
    if d < 26 {
        ((97u8 + d) as char)
    } else {
        ((24u8 + d) as char)
    }
}

/// `bytes` in lower-case base32 without padding; 16 bytes (128 bits) give
/// 26 digits.
pub fn base32_16(bytes: &[u8]) -> (res: String)
    requires
        8 * bytes@.len() + 4 <= usize::MAX,
    ensures
        res@ == base32(bytes@),
        res@.len() == (8 * bytes@.len() + 4) / 5,
        forall|k: int| 0 <= k < res@.len() ==> is_base32_char(#[trigger] res@[k]),
{
    let total = bytes.len() * 8;
    let groups = (total + 4) / 5;
    let mut out = String::new();
    let mut k: usize = 0;
    while k < groups
        invariant
            total == 8 * bytes@.len(),
            groups == (total + 4) / 5,
            k <= groups,
            out@ == base32(bytes@).take(k as int),
            forall|m: int| 0 <= m < out@.len() ==> is_base32_char(#[trigger] out@[m]),
        decreases groups - k,
    {
        let start = 5 * k;
        let d = 16 * bit_at(bytes, total, start) + 8 * bit_at(bytes, total, start + 1) + 4 * bit_at(
            bytes,
            total,
            start + 2,
        ) + 2 * bit_at(bytes, total, start + 3) + bit_at(bytes, total, start + 4);
        let c = base32_digit(d);
        push_char(&mut out, c);
        proof {
            assert(base32(bytes@)[k as int] == c);
            assert(base32(bytes@).take(k + 1) =~= base32(bytes@).take(k as int).push(c));
        }
        k = k + 1;
    }
    proof {
        assert(base32(bytes@).take(k as int) =~= base32(bytes@));
    }
    out
}

/// What `blake3::hash` returns for `data`: its 32-byte digest, which
/// depends on the data alone.
pub uninterp spec fn blake3_hash(data: Seq<u8>) -> Seq<u8>;

/// The BLAKE3 digest of `data`, with `blake3::hash`; it is 32 bytes long.
#[verifier::external_body]
fn blake3_digest(data: &[u8]) -> (res: Vec<u8>)
    ensures
        res@ == blake3_hash(data@),
        res@.len() == 32,
{
    blake3::hash(data).as_bytes().to_vec()
}

/// The content hash of a serialized manifest: the first 128 bits of its
/// BLAKE3 digest in lower-case base32, 26 digits.
pub fn manifest_hash(manifest: &[u8]) -> (res: String)
    ensures
        res@ == base32(blake3_hash(manifest@).take(16)),
        res@.len() == 26,
        forall|k: int| 0 <= k < res@.len() ==> is_base32_char(#[trigger] res@[k]),
{
    let digest = blake3_digest(manifest);
    let mut head: Vec<u8> = Vec::new();
    let mut i: usize = 0;
    while i < 16
        invariant
            i <= 16,
            digest@ == blake3_hash(manifest@),
            digest@.len() == 32,
            head@ == digest@.take(i as int),
        decreases 16 - i,
    {
        head.push(digest[i]);
        proof {
            assert(digest@.take(i + 1) =~= digest@.take(i as int).push(digest@[i as int]));
        }
        i = i + 1;
    }
    base32_16(head.as_slice())
}

} // verus!
