//! What a line of natural language asks for, and the command that answers it.
use vstd::prelude::*;

use crate::json::{json_entries, JsonObject, JsonScalar};
use crate::security::PermissionLevel;
use crate::text::{cat, cat4, cat5, owned};

verus! {

/// A request understood from natural language, one variant per kind of request.
///
/// A number that the request gives as a decimal fraction (a mixer gain, a timeline
/// position) is kept as the text that was typed, which reads as a number.
#[derive(Debug)]
#[allow(inconsistent_fields)]
pub enum Intent {
    SystemInfo,
    // --- network ---
    NetworkScan { action: String, target: Option<String> },
    // --- system ---
    JournalView {
        unit: Option<String>,
        priority: Option<String>,
        lines: Option<usize>,
        since: Option<String>,
    },
    DeviceInfo { subsystem: Option<String>, device_path: Option<String> },
    MountControl { action: String, mountpoint: Option<String>, filesystem: Option<String> },
    BootConfig { action: String, entry: Option<String>, value: Option<String> },
    SystemUpdate { action: String },
    Chmod { path: String, mode: String },
    Chown { path: String, owner: String },
    Symlink { target: String, link: String },
    Archive { action: String, archive: String, files: Vec<String> },
    Cron { action: String, schedule: Option<String>, command: Option<String> },
    ServiceEnable { service: String, enable: bool },
    EnvVar { action: String, name: Option<String>, value: Option<String> },
    // --- firewall ---
    FirewallAllow { port: String, protocol: Option<String> },
    FirewallDeny { port: String, protocol: Option<String> },
    FirewallList,
    FirewallStatus,
    FirewallEnable,
    FirewallDisable,
    FirewallDeleteRule { rule: String },
    // --- git ---
    GitCommit { message: String, all: bool },
    GitDiff { path: Option<String>, staged: bool },
    GitBranch { name: Option<String>, delete: bool },
    GitStatus,
    GitLog { count: Option<usize> },
    GitPush { remote: Option<String>, branch: Option<String> },
    GitPull { remote: Option<String>, branch: Option<String> },
    GitCheckout { target: String },
    GitMerge { branch: String },
    GitStash { action: String },
    // --- users and groups ---
    UserAdd { username: String, shell: Option<String>, home: Option<String> },
    UserDelete { username: String, remove_home: bool },
    UserMod { username: String, shell: Option<String>, groups: Option<String> },
    Passwd { username: Option<String> },
    GroupAdd { groupname: String },
    GroupDelete { groupname: String },
    GroupList { username: Option<String> },
    // --- stiva containers ---
    StivaRun { image: String, name: Option<String>, args: Vec<String> },
    StivaStop { id: String },
    StivaPs { all: bool },
    StivaRm { id: String, force: bool },
    StivaPull { image: String },
    StivaImages,
    StivaRmi { image: String },
    StivaBuild { path: String, tag: Option<String> },
    StivaLogs { id: String, tail: Option<usize> },
    StivaExec { id: String, command: String, args: Vec<String> },
    StivaInspect { target: String },
    StivaAnsamblu { action: String, file: Option<String> },
    // --- phylax ---
    PhylaxScan { target: String, mode: Option<String> },
    PhylaxFindings { severity: Option<String> },
    PhylaxHistory { limit: Option<usize> },
    PhylaxStatus,
    PhylaxRules,
    // --- packages ---
    InstallPackage { packages: Vec<String> },
    ArkInstall { packages: Vec<String>, source: Option<String> },
    ArkRemove { packages: Vec<String> },
    ArkSearch { query: String },
    ArkInfo { package: String },
    ArkUpdate,
    ArkUpgrade { packages: Option<Vec<String>> },
    ArkStatus,
    // --- marketplace ---
    MarketplaceInstall { package: String },
    MarketplaceUninstall { package: String },
    MarketplaceSearch { query: String },
    MarketplaceList,
    MarketplaceUpdate,
    // --- knowledge ---
    KnowledgeSearch { query: String, source: Option<String> },
    RagQuery { query: String },
    // --- t-ron ---
    TronStatus,
    TronRisk { agent_id: String },
    TronAudit { agent_id: Option<String>, limit: Option<usize> },
    TronPolicy { toml: String },
    // --- SecureYeoman ---
    YeomanAgents { action: String, agent_id: Option<String>, name: Option<String> },
    YeomanTasks { action: String, description: Option<String>, task_id: Option<String> },
    YeomanTools { action: String, query: Option<String> },
    YeomanIntegrations { action: String, name: Option<String> },
    YeomanStatus,
    YeomanLogs { action: String, agent_id: Option<String> },
    YeomanWorkflows { action: String, name: Option<String> },
    YeomanRegisterTools { action: String },
    YeomanToolExecute { tool_name: String, args: Option<String> },
    YeomanBrainQuery { query: String, limit: Option<String> },
    YeomanBrainSync { action: String, topic: Option<String> },
    YeomanTokenBudget { action: String, pool: Option<String>, amount: Option<String> },
    YeomanEvents { action: String, limit: Option<String> },
    YeomanSwarm { action: String, swarm_id: Option<String>, capability: Option<String> },
    // --- Agnostic ---
    AgnosticSubmitTask { title: String, description: Option<String>, target_url: Option<String> },
    AgnosticTaskStatus { task_id: String },
    AgnosticStructuredResults { session_id: String, result_type: Option<String> },
    AgnosticListPresets { domain: Option<String> },
    AgnosticAgentStatus,
    AgnosticDashboard { section: Option<String> },
    AgnosticTrends,
    AgnosticCompare { session_a: String, session_b: String },
    AgnosticRunCrew { title: String, preset: Option<String>, gpu_required: bool },
    AgnosticCrewStatus { crew_id: String },
    AgnosticListCrews { status: Option<String> },
    AgnosticCancelCrew { crew_id: String },
    AgnosticListDefinitions { domain: Option<String> },
    AgnosticCreateAgent { agent_key: String, name: String, role: String },
    AgnosticGpuStatus,
    AgnosticGpuMemory,
    // --- BullShift ---
    BullShiftPortfolio { action: String, period: Option<String> },
    BullShiftOrders { action: String, symbol: Option<String>, side: Option<String> },
    BullShiftMarket { action: String, symbol: Option<String> },
    BullShiftAlerts { action: String, symbol: Option<String> },
    BullShiftStrategy { action: String, name: Option<String> },
    BullShiftAccounts { action: String, broker: Option<String> },
    BullShiftHistory { action: String, period: Option<String> },
    // --- Jalwa ---
    JalwaPlay { path: String },
    JalwaPause,
    JalwaStatus,
    JalwaSearch { query: String },
    JalwaRecommend { item_id: String, max: Option<u32> },
    JalwaQueue { action: String, item_id: Option<String> },
    JalwaLibrary { action: String, path: Option<String> },
    JalwaPlaylist { action: String, name: Option<String>, item_id: Option<String> },
    // --- Photis Nadi ---
    TaskList { status: Option<String> },
    TaskCreate { title: String, priority: Option<String> },
    TaskUpdate { task_id: String, status: Option<String> },
    RitualCheck { date: Option<String> },
    ProductivityStats { period: Option<String> },
    PhotoisBoards { action: String, name: Option<String> },
    PhotoisNotes { action: String, content: Option<String> },
    // --- Delta ---
    DeltaCreateRepo { name: String, description: Option<String> },
    DeltaListRepos,
    DeltaPr { action: String, repo: Option<String>, title: Option<String> },
    DeltaPush { repo: Option<String>, branch: Option<String> },
    DeltaCiStatus { repo: Option<String> },
    DeltaBranches { action: String, repo: Option<String>, name: Option<String> },
    DeltaReview { action: String, pr_id: Option<String> },
    // --- Edge ---
    EdgeListNodes { status: Option<String> },
    EdgeDeploy { task: String, node: Option<String> },
    EdgeUpdate { node: String, version: Option<String> },
    EdgeHealth { node: Option<String> },
    EdgeDecommission { node: String },
    EdgeLogs { action: String, node: Option<String> },
    EdgeConfig { action: String, node: Option<String>, key: Option<String> },
    // --- Mneme ---
    MnemeNotebook { action: String, name: Option<String> },
    MnemeNotes { action: String, title: Option<String>, notebook_id: Option<String> },
    MnemeSearch { query: String, mode: Option<String> },
    MnemeAi { action: String, note_id: Option<String> },
    MnemeGraph { action: String, node_id: Option<String> },
    MnemeImport { action: String, path: Option<String> },
    MnemeTags { action: String, tag: Option<String> },
    // --- Rasa ---
    RasaCanvas { action: String, name: Option<String> },
    RasaLayers { action: String, name: Option<String>, kind: Option<String> },
    RasaTools { action: String, params: Option<String> },
    RasaAi { action: String, prompt: Option<String> },
    RasaExport { path: Option<String>, format: Option<String> },
    RasaBatch { action: String, path: Option<String> },
    RasaTemplates { action: String, name: Option<String> },
    RasaAdjustments { action: String, adjustment_type: Option<String> },
    // --- Shruti ---
    ShrutiSession { action: String, name: Option<String> },
    ShrutiTrack { action: String, name: Option<String>, kind: Option<String> },
    ShrutiMixer {
        track: String,
        gain: Option<String>,
        mute: Option<bool>,
        solo: Option<bool>,
    },
    ShrutiTransport { action: String, value: Option<String> },
    ShrutiExport { path: Option<String>, format: Option<String> },
    ShrutiPlugins { action: String, name: Option<String> },
    ShrutiAi { action: String, track: Option<String> },
    // --- Synapse ---
    SynapseModels { action: String, name: Option<String>, source: Option<String> },
    SynapseServe { action: String, model: Option<String> },
    SynapseFinetune { action: String, model: Option<String>, method: Option<String> },
    SynapseChat { model: String, prompt: Option<String> },
    SynapseStatus,
    SynapseBenchmark { action: String, models: Option<String> },
    SynapseQuantize { action: String, model: Option<String>, format: Option<String> },
    // --- Tazama ---
    TazamaProject { action: String, name: Option<String> },
    TazamaTimeline { action: String, clip_id: Option<String>, position: Option<String> },
    TazamaEffects { action: String, effect_type: Option<String>, clip_id: Option<String> },
    TazamaAi { action: String, options: Option<String> },
    TazamaExport { path: Option<String>, format: Option<String> },
    TazamaMedia { action: String, path: Option<String> },
    TazamaSubtitles { action: String, language: Option<String> },
    // --- Aequi ---
    AequiTaxEstimate { quarter: Option<String> },
    AequiScheduleC { year: Option<String> },
    AequiImportBank { file_path: String },
    AequiBalance,
    AequiReceipts { status: Option<String> },
    AequiInvoices { action: String, client: Option<String> },
    AequiReports { action: String, period: Option<String> },
    // --- Tarang ---
    TarangProbe { path: String },
    TarangAnalyze { path: String },
    TarangCodecs,
    TarangTranscribe { path: String, language: Option<String> },
    TarangFormats { path: String },
    TarangFingerprintIndex { path: String },
    TarangSearchSimilar { path: String, top_k: Option<usize> },
    TarangDescribe { path: String },
}

/// A call of a tool over the MCP bridge.
#[derive(Debug)]
pub struct McpCall {
    pub tool_name: String,
    pub arguments: JsonObject,
}

/// What the shell would run for a request, how to describe it, and what it may touch.
#[derive(Debug)]
pub struct Translation {
    pub command: String,
    pub args: Vec<String>,
    pub description: String,
    pub permission: PermissionLevel,
    pub explanation: String,
    pub mcp: Option<McpCall>,
}

/// A tool call as plain values.
pub struct McpView {
    pub tool_name: Seq<char>,
    pub arguments: Map<Seq<char>, JsonScalar>,
}

/// A translation as plain values.
pub struct TranslationView {
    pub command: Seq<char>,
    pub args: Seq<Seq<char>>,
    pub description: Seq<char>,
    pub permission: PermissionLevel,
    pub explanation: Seq<char>,
    pub mcp: Option<McpView>,
}

impl View for McpCall {
    type V = McpView;

    open spec fn view(&self) -> McpView {
        McpView { tool_name: self.tool_name@, arguments: json_entries(self.arguments) }
    }
}

impl View for Translation {
    type V = TranslationView;

    open spec fn view(&self) -> TranslationView {
        TranslationView {
            command: self.command@,
            args: self.args.deep_view(),
            description: self.description@,
            permission: self.permission,
            explanation: self.explanation@,
            mcp: match self.mcp {
                Some(m) => Some(m@),
                None => None,
            },
        }
    }
}

/// A translation that runs `command` with `args`.
pub open spec fn run_view(
    command: Seq<char>,
    args: Seq<Seq<char>>,
    description: Seq<char>,
    permission: PermissionLevel,
    explanation: Seq<char>,
) -> TranslationView {
    TranslationView { command, args, description, permission, explanation, mcp: None }
}

/// A translation that calls the MCP tool `tool` with `arguments`, and runs no command.
pub open spec fn tool_view(
    tool: Seq<char>,
    arguments: Map<Seq<char>, JsonScalar>,
    description: Seq<char>,
    permission: PermissionLevel,
    explanation: Seq<char>,
) -> TranslationView {
    TranslationView {
        command: Seq::empty(),
        args: Seq::empty(),
        description,
        permission,
        explanation,
        mcp: Some(McpView { tool_name: tool, arguments }),
    }
}

/// A translation whose description and explanation are the same text.
pub open spec fn described(
    command: Seq<char>,
    args: Seq<Seq<char>>,
    desc: Seq<char>,
    permission: PermissionLevel,
) -> TranslationView {
    run_view(command, args, desc, permission, desc)
}

impl Translation {
    /// A translation that runs `command` with `args`, described and explained by `desc`.
    pub fn described(command: &str, args: Vec<String>, desc: String, permission: PermissionLevel) -> (t:
        Translation)
        ensures
            t@ == described(command@, args.deep_view(), desc@, permission),
    {
        let e = desc.clone();
        Translation::cmd(command, args, desc, permission, e.as_str())
    }

    /// A translation that runs `command` with `args`, and calls no tool.
    pub fn cmd(
        command: &str,
        args: Vec<String>,
        description: String,
        permission: PermissionLevel,
        explanation: &str,
    ) -> (t: Translation)
        ensures
            t@ == run_view(command@, args.deep_view(), description@, permission, explanation@),
    {
        Translation {
            command: command.to_owned(),
            args,
            description,
            permission,
            explanation: explanation.to_owned(),
            mcp: None,
        }
    }
}

/// Why a request could not be translated.
#[derive(Debug)]
pub enum TranslateError {
    /// The network target holds a shell metacharacter.
    DisallowedCharacters(String),
    /// The network target is longer than 253 bytes.
    TargetTooLong,
    /// A package name holds a path traversal.
    PathTraversal,
    /// An identifier holds a path traversal or a URL-special character.
    InvalidIdentifier,
    /// The request names an action that its translator does not know for `subject`.
    UnknownAction { subject: String, action: String },
    /// The request belongs to another translator than that of `family`.
    NotForThisTranslator { family: String },
}

/// Why a request could not be translated, as plain values.
pub enum Failure {
    DisallowedCharacters(Seq<char>),
    TargetTooLong,
    PathTraversal,
    InvalidIdentifier,
    UnknownAction { subject: Seq<char>, action: Seq<char> },
    NotForThisTranslator { family: Seq<char> },
}

impl View for TranslateError {
    type V = Failure;

    open spec fn view(&self) -> Failure {
        match self {
            TranslateError::DisallowedCharacters(s) => Failure::DisallowedCharacters(s@),
            TranslateError::TargetTooLong => Failure::TargetTooLong,
            TranslateError::PathTraversal => Failure::PathTraversal,
            TranslateError::InvalidIdentifier => Failure::InvalidIdentifier,
            TranslateError::UnknownAction { subject, action } => Failure::UnknownAction {
                subject: subject@,
                action: action@,
            },
            TranslateError::NotForThisTranslator { family } => Failure::NotForThisTranslator {
                family: family@,
            },
        }
    }
}

/// The message that tells a user why a request could not be translated.
pub open spec fn failure_message(f: Failure) -> Seq<char> {
    match f {
        Failure::DisallowedCharacters(t) => "Target contains disallowed characters: "@ + t,
        Failure::TargetTooLong => "Target too long (max 253 characters)"@,
        Failure::PathTraversal => "Invalid identifier: contains path traversal characters"@,
        Failure::InvalidIdentifier => "Invalid identifier: contains path traversal or URL-special characters"@,
        Failure::UnknownAction { subject, action } => "Unknown "@ + subject + " action: "@ + action,
        Failure::NotForThisTranslator { family } => "translate_"@ + family + " called with non-"@
            + family + " intent"@,
    }
}

impl TranslateError {
    /// The message that tells a user why the request could not be translated.
    pub fn message(&self) -> (r: String)
        ensures
            r@ == failure_message(self@),
    {
        match self {
            TranslateError::DisallowedCharacters(t) => cat(
                "Target contains disallowed characters: ",
                t.as_str(),
            ),
            TranslateError::TargetTooLong => owned("Target too long (max 253 characters)"),
            TranslateError::PathTraversal => owned(
                "Invalid identifier: contains path traversal characters",
            ),
            TranslateError::InvalidIdentifier => owned(
                "Invalid identifier: contains path traversal or URL-special characters",
            ),
            TranslateError::UnknownAction { subject, action } => cat4(
                "Unknown ",
                subject.as_str(),
                " action: ",
                action.as_str(),
            ),
            TranslateError::NotForThisTranslator { family } => cat5(
                "translate_",
                family.as_str(),
                " called with non-",
                family.as_str(),
                " intent",
            ),
        }
    }
}

/// The outcome of a translation, as plain values.
pub open spec fn outcome(r: Result<Translation, TranslateError>) -> Result<
    TranslationView,
    Failure,
> {
    match r {
        Ok(t) => Ok(t@),
        Err(e) => Err(e@),
    }
}

} // verus!
