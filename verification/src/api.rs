//! The wire types shared by every interface surface of the browser (HTTP,
//! MCP, SDK): plain records, converted from the browser model where one
//! stands behind them. Serialization happens in the program.

use vstd::prelude::*;

use crate::browser::bookmark::{opt_view, string_views, Bookmark};
use crate::browser::history::HistoryEntry;

verus! {

/// GET /status — health + feature inventory.
#[derive(Debug, Clone)]
pub struct StatusResponse {
    /// Service name (always `"namimado"`).
    pub service: String,
    /// Crate version (`CARGO_PKG_VERSION`).
    pub version: String,
    /// Compile-time features that are live (`browser-core`,
    /// `gpu-chrome`, `http-server`).
    pub features: Vec<String>,
    /// URL of the most recent navigate, if any.
    pub last_url: Option<String>,
    /// Unix epoch seconds when the substrate was last (re)loaded.
    pub loaded_at_epoch: u64,
    /// How many times /reload has been called. `0` = first load only.
    pub reload_count: u64,
}

/// POST /navigate — input.
#[derive(Debug, Clone)]
pub struct NavigateRequest {
    /// URL (or bare host — `example.com` → `https://example.com`).
    pub url: String,
}

/// POST /reload response — confirms the pipeline was rebuilt and
/// surfaces the fresh inventory so the caller doesn't need a second
/// round-trip to know what's now loaded.
#[derive(Debug, Clone)]
pub struct ReloadResponse {
    /// True when the reload actually re-ran the loader (always true
    /// with `browser-core`; false in the degraded no-browser-core
    /// build that has nothing to reload).
    pub reloaded: bool,
    /// How many times /reload has been called, including this one.
    pub reload_count: u64,
    /// The freshly loaded rule inventory.
    pub rules: RulesInventory,
}

/// Substrate rule inventory — what's loaded, by DSL keyword.
///
/// Useful for the inspector panel ("why didn't my rule fire?") and
/// for MCP agents browsing the authoring surface. Counts match the
/// startup log line; `names` gives quick identification.
#[derive(Debug, Clone)]
pub struct RulesInventory {
    pub states: Vec<String>,
    pub effects: Vec<String>,
    pub predicates: Vec<String>,
    pub plans: Vec<String>,
    pub agents: Vec<String>,
    pub routes: Vec<String>,
    pub queries: Vec<String>,
    pub derived: Vec<String>,
    pub components: Vec<String>,
    pub normalize_rules: Vec<String>,
    pub transforms: Vec<String>,
    pub aliases: Vec<String>,
    pub wasm_agents: Vec<String>,
    pub blockers: Vec<String>,
    pub storages: Vec<String>,
    pub extensions: Vec<String>,
    pub readers: Vec<String>,
    pub commands: Vec<String>,
    pub binds: Vec<String>,
    pub omniboxes: Vec<String>,
    pub i18n: Vec<String>,
    pub security_policies: Vec<String>,
    pub finds: Vec<String>,
    pub zooms: Vec<String>,
    pub snapshots: Vec<String>,
    pub pips: Vec<String>,
    pub gestures: Vec<String>,
    pub boosts: Vec<String>,
    pub js_runtimes: Vec<String>,
    pub spaces: Vec<String>,
    pub sidebars: Vec<String>,
    pub splits: Vec<String>,
    pub spoofs: Vec<String>,
    pub dnses: Vec<String>,
    pub routings: Vec<String>,
    pub outlines: Vec<String>,
    pub annotates: Vec<String>,
    pub feeds: Vec<String>,
    pub redirects: Vec<String>,
    pub url_cleans: Vec<String>,
    pub script_policies: Vec<String>,
    pub bridges: Vec<String>,
    pub shares: Vec<String>,
    pub offlines: Vec<String>,
    pub pull_refreshes: Vec<String>,
    pub downloads: Vec<String>,
    pub autofills: Vec<String>,
    pub passwords: Vec<String>,
    pub auth_savers: Vec<String>,
    pub secure_notes: Vec<String>,
    pub passkeys: Vec<String>,
    pub llm_providers: Vec<String>,
    pub summarizes: Vec<String>,
    pub chats: Vec<String>,
    pub llm_completions: Vec<String>,
    pub media_sessions: Vec<String>,
    pub casts: Vec<String>,
    pub subtitles: Vec<String>,
    pub inspectors: Vec<String>,
    pub profilers: Vec<String>,
    pub console_rules: Vec<String>,
    pub reader_alouds: Vec<String>,
    pub high_contrasts: Vec<String>,
    pub simplifies: Vec<String>,
    pub presences: Vec<String>,
    pub crdt_rooms: Vec<String>,
    pub multiplayer_cursors: Vec<String>,
    pub service_workers: Vec<String>,
    pub syncs: Vec<String>,
    pub tab_groups: Vec<String>,
    pub tab_hibernates: Vec<String>,
    pub tab_previews: Vec<String>,
    pub search_engines: Vec<String>,
    pub search_bangs: Vec<String>,
    pub identities: Vec<String>,
    pub totps: Vec<String>,
    pub fingerprint_randomizes: Vec<String>,
    pub cookie_jars: Vec<String>,
    pub webgpu_policies: Vec<String>,
    pub suggestion_sources: Vec<String>,
    pub suggestion_rankers: Vec<String>,
    pub permission_policies: Vec<String>,
    pub permission_prompts: Vec<String>,
    pub resource_hints: Vec<String>,
    pub bfcache_policies: Vec<String>,
    pub prerender_rules: Vec<String>,
    pub history_policies: Vec<String>,
    pub navigation_intents: Vec<String>,
    pub storage_quotas: Vec<String>,
    pub clear_site_datas: Vec<String>,
    pub audit_trails: Vec<String>,
    pub viewports: Vec<String>,
    pub csp_policies: Vec<String>,
    pub network_throttles: Vec<String>,
}

/// One entry in the browsing history. Timestamp is Unix seconds.
#[derive(Debug, Clone)]
pub struct HistoryInfo {
    pub title: String,
    pub url: String,
    pub visited_at: i64,
    pub visit_count: u32,
}

/// One bookmark.
#[derive(Debug, Clone)]
pub struct BookmarkInfo {
    pub title: String,
    pub url: String,
    pub folder: Option<String>,
    pub tags: Vec<String>,
    pub added_at: i64,
}

/// GET /storage — per-store summary.
#[derive(Debug, Clone)]
pub struct StorageSummary {
    pub name: String,
    pub entry_count: usize,
}

/// POST /outline — input.
#[derive(Debug, Clone)]
pub struct OutlineRequest {
    /// Named (defoutline) profile.
    pub profile: Option<String>,
}

/// POST /url-clean — input.
#[derive(Debug, Clone)]
pub struct UrlCleanRequest {
    pub url: String,
}

/// POST /url-clean + POST /redirect — response envelope.
#[derive(Debug, Clone)]
pub struct UrlRewriteResponse {
    pub input: String,
    pub output: String,
    pub changed: bool,
}

/// POST /redirect — input.
#[derive(Debug, Clone)]
pub struct RedirectRequest {
    pub url: String,
}

/// GET /routing?host=… — response envelope.
#[derive(Debug, Clone)]
pub struct RoutingResolveResponse {
    pub host: String,
    /// Matched rule name (None when no rule applied — falls through
    /// to `"direct"`).
    pub rule: Option<String>,
    /// `"direct"` | `"tunnel"` | `"tor"` | `"socks5"` | `"pt"` |
    /// `"unknown"`.
    pub via_kind: String,
    /// Strategy argument — tunnel name / isolation name / URL / etc.
    pub via_target: Option<String>,
}

/// POST /summarize — input.
#[derive(Debug, Clone)]
pub struct SummarizeRequest {
    /// `(defsummarize)` profile name.
    pub profile: String,
    /// Source text to summarize. For now the caller supplies this
    /// directly; a future revision will let the profile pull it
    /// automatically based on its `scope` (ReaderText/WholePage/…).
    pub source: String,
}

/// POST /chat — input.
#[derive(Debug, Clone)]
pub struct ChatAskRequest {
    /// `(defchat-with-page)` profile name.
    pub profile: String,
    pub question: String,
    /// Optional page context the chat should reference.
    pub page_context: Option<String>,
    /// Prior conversation turns.
    pub history: Vec<LlmMessageDto>,
}

/// POST /llm-completion — input.
#[derive(Debug, Clone)]
pub struct LlmCompletionRequest {
    /// `(defllm-completion)` profile name.
    pub profile: String,
    pub prefix: String,
}

/// One message of an LLM conversation: who said it and what was said.
#[derive(Debug, Clone)]
pub struct LlmMessageDto {
    pub role: String,
    pub content: String,
}

/// Unified LLM response envelope.
#[derive(Debug, Clone)]
pub struct LlmResponseDto {
    pub outcome: String, // "ok" | "error"
    pub content: Option<String>,
    pub input_tokens: u32,
    pub output_tokens: u32,
    pub model: Option<String>,
    pub stopped: Option<String>,
    pub engine: String,
    pub error: Option<String>,
}

/// POST /spaces/:name/activate — response.
#[derive(Debug, Clone)]
pub struct SpaceActivateResponse {
    pub active: String,
}

/// GET /spaces/active — response.
#[derive(Debug, Clone)]
pub struct SpaceActiveResponse {
    pub active: Option<String>,
}

/// POST /find — input.
#[derive(Debug, Clone)]
pub struct FindRequest {
    /// Free-text query; empty returns zero hits.
    pub query: String,
    /// Named profile. None → built-in default.
    pub profile: Option<String>,
}

/// POST /find — one match row.
#[derive(Debug, Clone)]
pub struct FindMatchInfo {
    pub enclosing_tag: Option<String>,
    pub text_node_index: usize,
    pub offset: usize,
    pub matched: String,
}

/// POST /find — response envelope.
#[derive(Debug, Clone)]
pub struct FindResponse {
    pub query: String,
    pub profile: String,
    pub matches: Vec<FindMatchInfo>,
}

/// GET /pip?host=…
#[derive(Debug, Clone)]
pub struct PipResponse {
    pub host: String,
    pub name: Option<String>,
    pub selectors: Vec<String>,
    pub position: String,
    pub auto_activate: bool,
    pub always_on_top: bool,
}

/// POST /gesture/dispatch — input.
#[derive(Debug, Clone)]
pub struct GestureDispatchRequest {
    pub stroke: String,
}

/// POST /gesture/dispatch — response.
#[derive(Debug, Clone)]
pub struct GestureDispatchResponse {
    pub outcome: String, // "run" | "miss"
    pub command: Option<String>,
}

/// GET /boosts — one row per boost.
#[derive(Debug, Clone)]
pub struct BoostInfo {
    pub name: String,
    pub host: String,
    pub enabled: bool,
    pub has_css: bool,
    pub has_lisp: bool,
    pub has_js: bool,
    pub blocker_count: usize,
}

/// POST /boosts/:name/enabled — toggle body.
#[derive(Debug, Clone)]
pub struct BoostToggleRequest {
    pub enabled: bool,
}

/// GET /session/tabs + snapshot.
#[derive(Debug, Clone)]
pub struct SessionTabInfo {
    pub url: String,
    pub title: String,
    pub closed_at: u64,
    pub pinned: bool,
}

/// GET /i18n/:namespace — localized strings for a namespace.
#[derive(Debug, Clone)]
pub struct I18nResponse {
    pub namespace: String,
    pub locale: String,
    /// Resolved value, with fallback chain applied.
    pub value: String,
    /// True if the fallback chain hit a real bundle; false if we
    /// degraded to the raw key.
    pub resolved: bool,
}

/// GET /i18n/:namespace/missing?locale=…
#[derive(Debug, Clone)]
pub struct I18nCoverage {
    pub namespace: String,
    pub locale: String,
    pub available_locales: Vec<String>,
    pub missing_keys: Vec<String>,
}

/// GET /security-policy?host=…
#[derive(Debug, Clone)]
pub struct SecurityPolicyResponse {
    pub host: String,
    pub policy_name: Option<String>,
    /// `(header_name, value)` pairs ready to emit on HTTP responses.
    pub headers: Vec<(String, String)>,
}

/// GET /storage/:name/index — per-store index inventory + values.
#[derive(Debug, Clone)]
pub struct StorageIndexSummary {
    pub path: String,
    pub distinct_values: Vec<String>,
}

/// POST /extensions/verify — verify a signed-extension envelope
/// against the namimado trust DB. Body: a full SignedExtension JSON
/// (spec + signature). Returns status + optional signer metadata.
#[derive(Debug, Clone)]
pub struct VerifyExtensionResponse {
    /// "trusted" | "valid-but-untrusted" | "invalid"
    pub status: String,
    pub public_key: Option<String>,
    pub signed_by: Option<String>,
    pub detail: Option<String>,
}

/// POST /trustdb — add/remove body.
#[derive(Debug, Clone)]
pub struct TrustdbKeyRequest {
    pub public_key: String,
    pub signed_by: Option<String>,
}

/// POST /commands/dispatch — input. Simulates a key sequence against
/// the bind registry in a given mode. Useful for testing bindings
/// from MCP / tests without wiring into the GPU key pipeline.
#[derive(Debug, Clone)]
pub struct DispatchKeyRequest {
    /// Typed-so-far sequence. Canonicalization is performed server-side.
    pub typed: String,
    /// Dispatch mode. Common values: "normal", "insert", "visual",
    /// "command", "any". Default "any".
    pub mode: Option<String>,
}

/// POST /commands/dispatch — response.
#[derive(Debug, Clone)]
pub struct DispatchKeyResponse {
    /// "run" | "prefix" | "miss".
    pub outcome: String,
    /// When outcome = "run": the resolved command name.
    pub command: Option<String>,
    /// When outcome = "run": the built-in action, if any.
    pub action: Option<String>,
    /// When outcome = "run": the tatara-lisp body, if any.
    pub body: Option<String>,
    /// When outcome = "run": the canonical key that fired.
    pub key: Option<String>,
}

/// GET /commands — one row per (defcommand) + its current bindings.
#[derive(Debug, Clone)]
pub struct CommandInfo {
    pub name: String,
    pub description: Option<String>,
    pub action: Option<String>,
    pub body: Option<String>,
    pub default_key: Option<String>,
    /// All bound chords that currently target this command.
    pub bound_keys: Vec<String>,
}

/// GET /reader — simplified-view response.
#[derive(Debug, Clone)]
pub struct ReaderResponse {
    pub spec_name: String,
    pub title: Option<String>,
    pub byline: Option<String>,
    /// Plain-text render of the simplified content.
    pub text: String,
    /// Simplified DOM serialized back to HTML.
    pub html: String,
    pub word_count: usize,
}

/// GET /extensions — one summary row per installed extension.
#[derive(Debug, Clone)]
pub struct ExtensionSummary {
    pub name: String,
    pub version: String,
    pub enabled: bool,
    pub host_permissions_count: usize,
    pub rules_count: usize,
}

/// POST /extensions/:name/enabled — toggle body.
#[derive(Debug, Clone)]
pub struct ExtensionToggleRequest {
    pub enabled: bool,
}

/// POST /extensions — install from raw Lisp source. Server compiles
/// the first (defextension …) form it finds; other def* forms in the
/// same source are installed into their respective registries too.
#[derive(Debug, Clone)]
pub struct ExtensionInstallRequest {
    pub lisp_source: String,
}

/// POST /extensions response — content hash after install.
#[derive(Debug, Clone)]
pub struct ExtensionInstallResponse {
    pub installed: String,
    pub content_hash: String,
}

/// POST /bookmarks — input.
#[derive(Debug, Clone)]
pub struct AddBookmarkRequest {
    pub url: String,
    pub title: Option<String>,
    pub folder: Option<String>,
    pub tags: Vec<String>,
}

/// Uniform error shape returned by every API surface.
#[derive(Debug, Clone)]
pub struct ApiError {
    pub error: String,
    pub detail: Option<String>,
}

impl Default for RulesInventory {
    /// An inventory with nothing loaded.
    fn default() -> (r: RulesInventory)
        ensures
            r.states@.len() == 0,
            r.effects@.len() == 0,
            r.predicates@.len() == 0,
            r.plans@.len() == 0,
            r.agents@.len() == 0,
            r.routes@.len() == 0,
            r.queries@.len() == 0,
            r.derived@.len() == 0,
            r.components@.len() == 0,
            r.normalize_rules@.len() == 0,
            r.transforms@.len() == 0,
            r.aliases@.len() == 0,
            r.wasm_agents@.len() == 0,
            r.blockers@.len() == 0,
            r.storages@.len() == 0,
            r.extensions@.len() == 0,
            r.readers@.len() == 0,
            r.commands@.len() == 0,
            r.binds@.len() == 0,
            r.omniboxes@.len() == 0,
            r.i18n@.len() == 0,
            r.security_policies@.len() == 0,
            r.finds@.len() == 0,
            r.zooms@.len() == 0,
            r.snapshots@.len() == 0,
            r.pips@.len() == 0,
            r.gestures@.len() == 0,
            r.boosts@.len() == 0,
            r.js_runtimes@.len() == 0,
            r.spaces@.len() == 0,
            r.sidebars@.len() == 0,
            r.splits@.len() == 0,
            r.spoofs@.len() == 0,
            r.dnses@.len() == 0,
            r.routings@.len() == 0,
            r.outlines@.len() == 0,
            r.annotates@.len() == 0,
            r.feeds@.len() == 0,
            r.redirects@.len() == 0,
            r.url_cleans@.len() == 0,
            r.script_policies@.len() == 0,
            r.bridges@.len() == 0,
            r.shares@.len() == 0,
            r.offlines@.len() == 0,
            r.pull_refreshes@.len() == 0,
            r.downloads@.len() == 0,
            r.autofills@.len() == 0,
            r.passwords@.len() == 0,
            r.auth_savers@.len() == 0,
            r.secure_notes@.len() == 0,
            r.passkeys@.len() == 0,
            r.llm_providers@.len() == 0,
            r.summarizes@.len() == 0,
            r.chats@.len() == 0,
            r.llm_completions@.len() == 0,
            r.media_sessions@.len() == 0,
            r.casts@.len() == 0,
            r.subtitles@.len() == 0,
            r.inspectors@.len() == 0,
            r.profilers@.len() == 0,
            r.console_rules@.len() == 0,
            r.reader_alouds@.len() == 0,
            r.high_contrasts@.len() == 0,
            r.simplifies@.len() == 0,
            r.presences@.len() == 0,
            r.crdt_rooms@.len() == 0,
            r.multiplayer_cursors@.len() == 0,
            r.service_workers@.len() == 0,
            r.syncs@.len() == 0,
            r.tab_groups@.len() == 0,
            r.tab_hibernates@.len() == 0,
            r.tab_previews@.len() == 0,
            r.search_engines@.len() == 0,
            r.search_bangs@.len() == 0,
            r.identities@.len() == 0,
            r.totps@.len() == 0,
            r.fingerprint_randomizes@.len() == 0,
            r.cookie_jars@.len() == 0,
            r.webgpu_policies@.len() == 0,
            r.suggestion_sources@.len() == 0,
            r.suggestion_rankers@.len() == 0,
            r.permission_policies@.len() == 0,
            r.permission_prompts@.len() == 0,
            r.resource_hints@.len() == 0,
            r.bfcache_policies@.len() == 0,
            r.prerender_rules@.len() == 0,
            r.history_policies@.len() == 0,
            r.navigation_intents@.len() == 0,
            r.storage_quotas@.len() == 0,
            r.clear_site_datas@.len() == 0,
            r.audit_trails@.len() == 0,
            r.viewports@.len() == 0,
            r.csp_policies@.len() == 0,
            r.network_throttles@.len() == 0,
    {
        RulesInventory {
            states: Vec::new(),
            effects: Vec::new(),
            predicates: Vec::new(),
            plans: Vec::new(),
            agents: Vec::new(),
            routes: Vec::new(),
            queries: Vec::new(),
            derived: Vec::new(),
            components: Vec::new(),
            normalize_rules: Vec::new(),
            transforms: Vec::new(),
            aliases: Vec::new(),
            wasm_agents: Vec::new(),
            blockers: Vec::new(),
            storages: Vec::new(),
            extensions: Vec::new(),
            readers: Vec::new(),
            commands: Vec::new(),
            binds: Vec::new(),
            omniboxes: Vec::new(),
            i18n: Vec::new(),
            security_policies: Vec::new(),
            finds: Vec::new(),
            zooms: Vec::new(),
            snapshots: Vec::new(),
            pips: Vec::new(),
            gestures: Vec::new(),
            boosts: Vec::new(),
            js_runtimes: Vec::new(),
            spaces: Vec::new(),
            sidebars: Vec::new(),
            splits: Vec::new(),
            spoofs: Vec::new(),
            dnses: Vec::new(),
            routings: Vec::new(),
            outlines: Vec::new(),
            annotates: Vec::new(),
            feeds: Vec::new(),
            redirects: Vec::new(),
            url_cleans: Vec::new(),
            script_policies: Vec::new(),
            bridges: Vec::new(),
            shares: Vec::new(),
            offlines: Vec::new(),
            pull_refreshes: Vec::new(),
            downloads: Vec::new(),
            autofills: Vec::new(),
            passwords: Vec::new(),
            auth_savers: Vec::new(),
            secure_notes: Vec::new(),
            passkeys: Vec::new(),
            llm_providers: Vec::new(),
            summarizes: Vec::new(),
            chats: Vec::new(),
            llm_completions: Vec::new(),
            media_sessions: Vec::new(),
            casts: Vec::new(),
            subtitles: Vec::new(),
            inspectors: Vec::new(),
            profilers: Vec::new(),
            console_rules: Vec::new(),
            reader_alouds: Vec::new(),
            high_contrasts: Vec::new(),
            simplifies: Vec::new(),
            presences: Vec::new(),
            crdt_rooms: Vec::new(),
            multiplayer_cursors: Vec::new(),
            service_workers: Vec::new(),
            syncs: Vec::new(),
            tab_groups: Vec::new(),
            tab_hibernates: Vec::new(),
            tab_previews: Vec::new(),
            search_engines: Vec::new(),
            search_bangs: Vec::new(),
            identities: Vec::new(),
            totps: Vec::new(),
            fingerprint_randomizes: Vec::new(),
            cookie_jars: Vec::new(),
            webgpu_policies: Vec::new(),
            suggestion_sources: Vec::new(),
            suggestion_rankers: Vec::new(),
            permission_policies: Vec::new(),
            permission_prompts: Vec::new(),
            resource_hints: Vec::new(),
            bfcache_policies: Vec::new(),
            prerender_rules: Vec::new(),
            history_policies: Vec::new(),
            navigation_intents: Vec::new(),
            storage_quotas: Vec::new(),
            clear_site_datas: Vec::new(),
            audit_trails: Vec::new(),
            viewports: Vec::new(),
            csp_policies: Vec::new(),
            network_throttles: Vec::new(),
        }
    }
}

impl Default for PipResponse {
    /// No picture-in-picture rule: empty host, name and position, no
    /// selectors, nothing automatic.
    fn default() -> (p: PipResponse)
        ensures
            p.host@.len() == 0,
            p.name is None,
            p.selectors@.len() == 0,
            p.position@.len() == 0,
            !p.auto_activate,
            !p.always_on_top,
    {
        PipResponse {
            host: String::new(),
            name: None,
            selectors: Vec::new(),
            position: String::new(),
            auto_activate: false,
            always_on_top: false,
        }
    }
}

impl Default for AddBookmarkRequest {
    /// An empty request: no URL, title, folder or tags.
    fn default() -> (r: AddBookmarkRequest)
        ensures
            r.url@.len() == 0,
            r.title is None,
            r.folder is None,
            r.tags@.len() == 0,
    {
        AddBookmarkRequest { url: String::new(), title: None, folder: None, tags: Vec::new() }
    }
}

/// A copy of each string of `v`.
fn copy_strings(v: &Vec<String>) -> (res: Vec<String>)
    ensures
        string_views(res@) == string_views(v@),
{
    let mut out: Vec<String> = Vec::new();
    let mut i: usize = 0;
    while i < v.len()
        invariant
            i <= v@.len(),
            string_views(out@) == string_views(v@).take(i as int),
        decreases v@.len() - i,
    {
        let ghost before = out@;
        out.push(v[i].clone());
        proof {
            assert(string_views(out@) =~= string_views(before).push(v@[i as int]@));
            assert(string_views(v@).take(i + 1) =~= string_views(v@).take(i as int).push(v@[i as int]@));
        }
        i = i + 1;
    }
    proof {
        assert(string_views(v@).take(i as int) =~= string_views(v@));
    }
    out
}

/// A copy of an optional string.
fn copy_opt(o: &Option<String>) -> (res: Option<String>)
    ensures
        opt_view(res) == opt_view(*o),
{
    match o {
        Some(s) => Some(s.clone()),
        None => None,
    }
}

impl HistoryInfo {
    /// The record of a history entry: its title, URL, time and visit count.
    pub fn from_entry(e: &HistoryEntry) -> (res: HistoryInfo)
        ensures
            res.title@ == e@.title,
            res.url@ == e@.url.text,
            res.visited_at == e@.timestamp,
            res.visit_count == e@.visit_count,
    {
        HistoryInfo {
            title: e.title.clone(),
            url: e.url.to_string(),
            visited_at: e.timestamp,
            visit_count: e.visit_count,
        }
    }
}

impl BookmarkInfo {
    /// The record of a bookmark: its title, URL, folder, tags and creation
    /// time.
    pub fn from_bookmark(b: &Bookmark) -> (res: BookmarkInfo)
        ensures
            res.title@ == b@.title,
            res.url@ == b@.url.text,
            opt_view(res.folder) == b@.folder,
            string_views(res.tags@) == b@.tags,
            res.added_at == b@.created_at,
    {
        BookmarkInfo {
            title: b.title.clone(),
            url: b.url.to_string(),
            folder: copy_opt(&b.folder),
            tags: copy_strings(&b.tags),
            added_at: b.created_at,
        }
    }
}

impl ApiError {
    /// An error with a code and no detail.
    pub fn new(error: &str) -> (res: ApiError)
        ensures
            res.error@ == error@,
            res.detail is None,
    {
        ApiError { error: String::from_str(error), detail: None }
    }

    /// The same error with `detail` attached (replacing any earlier one).
    pub fn with_detail(self, detail: &str) -> (res: ApiError)
        ensures
            res.error == self.error,
            opt_view(res.detail) == Some(detail@),
    {
        let mut e = self;
        e.detail = Some(String::from_str(detail));
        e
    }
}

} // verus!
