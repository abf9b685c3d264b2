//! Claiming through the relayer: what its helper is told and what it answers.
use vstd::prelude::*;
use crate::text;
use crate::types::{Config, SettlementTxMode};
use crate::utils::paths;

verus! {

pub fn should_use_relayer_for_settlement(config: &Config) -> (r: bool)
    ensures
        r == (config.settlement_tx_mode == SettlementTxMode::RelayerSafe),
{
    config.settlement_tx_mode == SettlementTxMode::RelayerSafe
}

/// What the helper printed.
pub struct RelayerHelperOutput {
    pub ok: bool,
    pub tx_hash: Option<String>,
    pub error: Option<String>,
}

/// Whether a setting is missing or blank.
pub open spec fn is_missing(setting: Option<String>) -> bool {
    setting is None || text::is_blank(setting->Some_0@)
}

fn missing(setting: &Option<String>) -> (r: bool)
    ensures
        r == is_missing(*setting),
{
    match setting {
        Some(s) => text::blank(s.as_str()),
        None => true,
    }
}

/// What stands in the way of a claim through the relayer, looked for in this order.
pub open spec fn relay_obstacle(config: Config, condition_id: Seq<char>) -> Option<Seq<char>> {
    let trimmed = text::trimmed(condition_id);
    if !text::bytes32(trimmed) {
        Some("Invalid conditionId for relayer redeem: "@ + trimmed)
    } else if text::is_blank(config.private_key@) {
        Some("PRIVATE_KEY is required for relayer redeem"@)
    } else if is_missing(config.relayer_api_key) {
        Some("RELAYER_API_KEY is required for relayer redeem"@)
    } else if is_missing(config.relayer_api_key_address) {
        Some("RELAYER_API_KEY_ADDRESS is required for relayer redeem"@)
    } else {
        None
    }
}

/// The condition id to hand to the helper, where a claim can be made.
pub fn prepare_relay(config: &Config, condition_id: &str) -> (r: Result<String, String>)
    ensures
        match r {
            Ok(id) => relay_obstacle(*config, condition_id@) is None && id@ == text::trimmed(
                condition_id@,
            ),
            Err(message) => relay_obstacle(*config, condition_id@) == Some(message@),
        },
{
    let trimmed = text::trim(condition_id);
    if !text::is_bytes32(trimmed) {
        let mut message = "Invalid conditionId for relayer redeem: ".to_owned();
        message.append(trimmed);
        return Err(message);
    }
    if text::blank(config.private_key.as_str()) {
        return Err("PRIVATE_KEY is required for relayer redeem".to_owned());
    }
    if missing(&config.relayer_api_key) {
        return Err("RELAYER_API_KEY is required for relayer redeem".to_owned());
    }
    if missing(&config.relayer_api_key_address) {
        return Err("RELAYER_API_KEY_ADDRESS is required for relayer redeem".to_owned());
    }
    Ok(trimmed.to_owned())
}

/// A setting without white space around it; empty where it is missing.
pub open spec fn trimmed_or_empty(setting: Option<String>) -> Seq<char> {
    match setting {
        Some(s) => text::trimmed(s@),
        None => Seq::empty(),
    }
}

fn trim_or_empty(setting: &Option<String>) -> (r: String)
    ensures
        r@ == trimmed_or_empty(*setting),
{
    match setting {
        Some(s) => text::trim(s.as_str()).to_owned(),
        None => {
            let none = String::new();
            assert(none@ =~= Seq::<char>::empty());
            none
        },
    }
}

/// The environment of the helper.
pub open spec fn helper_variables(config: Config, condition_id: Seq<char>) -> Seq<
    (Seq<char>, Seq<char>),
> {
    seq![
        ("RELAYER_BASE_URL"@, text::trimmed(config.relayer_base_url@)),
        ("RELAYER_API_KEY"@, trimmed_or_empty(config.relayer_api_key)),
        ("RELAYER_API_KEY_ADDRESS"@, trimmed_or_empty(config.relayer_api_key_address)),
        ("PRIVATE_KEY"@, text::trimmed(config.private_key@)),
        ("POLYGON_RPC_URL"@, text::trimmed(config.polygon_rpc_url@)),
        (
            "RELAYER_REQUEST_TIMEOUT_MS"@,
            text::decimal(config.relayer_request_timeout_ms as nat),
        ),
        ("RELAYER_POLL_INTERVAL_MS"@, text::decimal(config.relayer_poll_interval_ms as nat)),
        ("RELAYER_MAX_POLLS"@, text::decimal(config.relayer_max_polls as nat)),
        ("CTF_CONTRACT"@, text::trimmed(config.ctf_contract@)),
        ("USDC_E"@, text::trimmed(config.usdc_address@)),
        ("CONDITION_ID"@, text::trimmed(condition_id)),
    ]
}

fn variable(name: &str, value: &str) -> (r: (String, String))
    ensures
        r.0@ == name@,
        r.1@ == value@,
{
    (name.to_owned(), value.to_owned())
}

fn variables_of(config: &Config, condition_id: &str) -> (r: Vec<(String, String)>)
    ensures
        text::pairs(r@) == helper_variables(*config, condition_id@),
{
    let key = trim_or_empty(&config.relayer_api_key);
    let address = trim_or_empty(&config.relayer_api_key_address);
    let timeout = text::decimal_u64(config.relayer_request_timeout_ms);
    let interval = text::decimal_u64(config.relayer_poll_interval_ms);
    let polls = text::decimal_u64(config.relayer_max_polls);
    let mut v: Vec<(String, String)> = Vec::new();
    v.push(variable("RELAYER_BASE_URL", text::trim(config.relayer_base_url.as_str())));
    v.push(variable("RELAYER_API_KEY", key.as_str()));
    v.push(variable("RELAYER_API_KEY_ADDRESS", address.as_str()));
    v.push(variable("PRIVATE_KEY", text::trim(config.private_key.as_str())));
    v.push(variable("POLYGON_RPC_URL", text::trim(config.polygon_rpc_url.as_str())));
    v.push(variable("RELAYER_REQUEST_TIMEOUT_MS", timeout.as_str()));
    v.push(variable("RELAYER_POLL_INTERVAL_MS", interval.as_str()));
    v.push(variable("RELAYER_MAX_POLLS", polls.as_str()));
    v.push(variable("CTF_CONTRACT", text::trim(config.ctf_contract.as_str())));
    v.push(variable("USDC_E", text::trim(config.usdc_address.as_str())));
    v.push(variable("CONDITION_ID", text::trim(condition_id)));
    assert(text::pairs(v@) =~= helper_variables(*config, condition_id@));
    v
}

// ---------------------------------------------------------------------------
// Where the helper lives
// ---------------------------------------------------------------------------

/// The helper below a root directory, and the packages it runs on.
pub struct HelperPaths {
    pub root: String,
    pub script: String,
    pub node_modules: String,
    pub relayer_package: String,
    pub ethers_package: String,
}

/// Whether a path is that of a file in a directory below a root.
pub open spec fn two_below(
    path: Seq<char>,
    root: Seq<char>,
    directory: Seq<char>,
    file: Seq<char>,
) -> bool {
    exists|between: Seq<char>| #[trigger]
        paths::leads_to(between, root, directory) && paths::leads_to(path, between, file)
}

impl HelperPaths {
    /// Whether all of it lies below the root.
    pub open spec fn below(self, root: Seq<char>) -> bool {
        &&& self.root@ == root
        &&& two_below(self.script@, root, "scripts"@, "relayer_redeem_safe.cjs"@)
        &&& paths::leads_to(self.node_modules@, root, "node_modules"@)
        &&& two_below(
            self.relayer_package@,
            self.node_modules@,
            "@polymarket"@,
            "builder-relayer-client"@,
        )
        &&& paths::leads_to(self.ethers_package@, self.node_modules@, "ethers"@)
    }
}

/// Where the helper and its packages are to be looked for below a root directory.
pub fn helper_paths(root: &str) -> (r: HelperPaths)
    ensures
        r.below(root@),
{
    let scripts = paths::join_path(root, "scripts");
    let script = paths::join_path(scripts.as_str(), "relayer_redeem_safe.cjs");
    let node_modules = paths::join_path(root, "node_modules");
    let vendor = paths::join_path(node_modules.as_str(), "@polymarket");
    let relayer_package = paths::join_path(vendor.as_str(), "builder-relayer-client");
    let ethers_package = paths::join_path(node_modules.as_str(), "ethers");
    assert(two_below(script@, root@, "scripts"@, "relayer_redeem_safe.cjs"@)) by {
        assert(paths::leads_to(scripts@, root@, "scripts"@));
    }
    assert(two_below(
        relayer_package@,
        node_modules@,
        "@polymarket"@,
        "builder-relayer-client"@,
    )) by {
        assert(paths::leads_to(vendor@, node_modules@, "@polymarket"@));
    }
    HelperPaths { root: root.to_owned(), script, node_modules, relayer_package, ethers_package }
}

/// The first occurrences among several texts, in their order.
pub open spec fn first_occurrences(candidates: Seq<Seq<char>>) -> Seq<Seq<char>>
    decreases candidates.len(),
{
    if candidates.len() == 0 {
        Seq::empty()
    } else {
        let before = first_occurrences(candidates.drop_last());
        if before.contains(candidates.last()) {
            before
        } else {
            before.push(candidates.last())
        }
    }
}

/// Keeps the first occurrence of each root.
pub fn unique_roots(candidates: &Vec<String>) -> (r: Vec<String>)
    ensures
        text::texts(r@) == first_occurrences(text::texts(candidates@)),
{
    let ghost all = text::texts(candidates@);
    let mut out: Vec<String> = Vec::new();
    let mut i: usize = 0;
    assert(text::texts(out@) =~= first_occurrences(all.take(0)));
    while i < candidates.len()
        invariant
            i <= candidates.len(),
            all == text::texts(candidates@),
            text::texts(out@) == first_occurrences(all.take(i as int)),
        decreases candidates.len() - i,
    {
        assert(all.take(i + 1).drop_last() =~= all.take(i as int));
        assert(all.take(i + 1).last() == candidates@[i as int]@);
        if !text::holds(&out, candidates[i].as_str()) {
            let ghost before = out@;
            out.push(candidates[i].clone());
            assert(text::texts(out@) =~= text::texts(before).push(candidates@[i as int]@));
        }
        i = i + 1;
    }
    assert(all.take(all.len() as int) =~= all);
    out
}

/// Each root stands once among the first occurrences, and none is lost.
pub proof fn first_occurrences_are_unique(candidates: Seq<Seq<char>>)
    ensures
        first_occurrences(candidates).no_duplicates(),
        forall|s: Seq<char>| #[trigger]
            first_occurrences(candidates).contains(s) <==> candidates.contains(s),
    decreases candidates.len(),
{
    if candidates.len() > 0 {
        let head = candidates.drop_last();
        let before = first_occurrences(head);
        first_occurrences_are_unique(head);
        let all = first_occurrences(candidates);
        assert forall|s: Seq<char>| #[trigger] all.contains(s) <==> candidates.contains(s) by {
            if candidates.contains(s) {
                let i = choose|i: int| 0 <= i < candidates.len() && candidates[i] == s;
                if i < head.len() {
                    assert(head[i] == s);
                    assert(before.contains(s));
                    let k = choose|k: int| 0 <= k < before.len() && before[k] == s;
                    assert(all[k] == s);
                } else if !before.contains(s) {
                    assert(all[before.len() as int] == s);
                }
            }
            if all.contains(s) {
                let i = choose|i: int| 0 <= i < all.len() && all[i] == s;
                if i < before.len() {
                    assert(before[i] == s);
                    assert(before.contains(s));
                    let k = choose|k: int| 0 <= k < head.len() && head[k] == s;
                    assert(candidates[k] == s);
                } else {
                    assert(candidates[head.len() as int] == s);
                }
            }
        }
    }
}

/// The roots under which the helper script is looked for: the one that the environment names,
/// where it is not blank, and then the others.
pub open spec fn bot_roots(from_env: Option<Seq<char>>, others: Seq<Seq<char>>) -> Seq<Seq<char>> {
    first_occurrences(
        match from_env {
            Some(root) => if text::is_blank(root) {
                others
            } else {
                seq![text::trimmed(root)] + others
            },
            None => others,
        },
    )
}

pub fn candidate_bot_roots(from_env: Option<String>, others: Vec<String>) -> (r: Vec<String>)
    ensures
        text::texts(r@) == bot_roots(crate::json::text_view(from_env), text::texts(others@)),
{
    let mut candidates: Vec<String> = Vec::new();
    match from_env {
        Some(root) => {
            let trimmed = text::trim(root.as_str());
            if !trimmed.is_empty() {
                candidates.push(trimmed.to_owned());
            }
        },
        None => {},
    }
    let ghost first = candidates@;
    let ghost rest = others@;
    let mut others = others;
    candidates.append(&mut others);
    assert(text::texts(candidates@) =~= text::texts(first) + text::texts(rest));
    assert(first.len() == 1 ==> text::texts(first) =~= seq![first[0]@]);
    assert(first.len() == 0 ==> text::texts(first) + text::texts(rest) =~= text::texts(rest));
    unique_roots(&candidates)
}

/// Picks the first of several roots whose helper script exists.
pub fn resolve_helper_script(script_exists: &Vec<bool>) -> (r: Result<usize, String>)
    ensures
        match r {
            Ok(i) => i < script_exists@.len() && script_exists@[i as int] && forall|j: int|
                0 <= j < i ==> !#[trigger] script_exists@[j],
            Err(message) => (forall|j: int|
                0 <= j < script_exists@.len() ==> !#[trigger] script_exists@[j]) && message@
                == "relayer helper script not found: scripts/relayer_redeem_safe.cjs (set BOT_RUST_ROOT if running outside project root)"@,
        },
{
    let mut i: usize = 0;
    while i < script_exists.len()
        invariant
            i <= script_exists.len(),
            forall|j: int| 0 <= j < i ==> !#[trigger] script_exists@[j],
        decreases script_exists.len() - i,
    {
        if script_exists[i] {
            return Ok(i);
        }
        i = i + 1;
    }
    Err(
        "relayer helper script not found: scripts/relayer_redeem_safe.cjs (set BOT_RUST_ROOT if running outside project root)".to_owned(),
    )
}

/// Which of the helper's packages exist.
#[derive(Clone, Copy)]
pub struct FoundPackages {
    pub node_modules: bool,
    pub relayer: bool,
    pub ethers: bool,
}

impl FoundPackages {
    pub open spec fn complete(self) -> bool {
        self.node_modules && self.relayer && self.ethers
    }
}

/// The first package that is missing, as it is complained of.
pub open spec fn missing_package(found: FoundPackages, node_modules: Seq<char>) -> Option<
    Seq<char>,
> {
    if !found.node_modules {
        Some(
            "bot-rust local node_modules not found at "@ + node_modules
                + ". Run `npm install` in bot-rust."@,
        )
    } else if !found.relayer {
        Some(
            "Missing @polymarket/builder-relayer-client in bot-rust/node_modules. Run `npm install` in bot-rust."@,
        )
    } else if !found.ethers {
        Some("Missing ethers in bot-rust/node_modules. Run `npm install` in bot-rust."@)
    } else {
        None
    }
}

/// Makes sure that the helper has all its packages below its own root.
pub fn resolve_local_node_modules(node_modules: &str, found: FoundPackages) -> (r: Result<
    (),
    String,
>)
    ensures
        r is Ok <==> found.complete(),
        match r {
            Ok(_) => missing_package(found, node_modules@) is None,
            Err(message) => missing_package(found, node_modules@) == Some(message@),
        },
{
    if !found.node_modules {
        let mut message = "bot-rust local node_modules not found at ".to_owned();
        message.append(node_modules);
        message.append(". Run `npm install` in bot-rust.");
        return Err(message);
    }
    if !found.relayer {
        return Err(
            "Missing @polymarket/builder-relayer-client in bot-rust/node_modules. Run `npm install` in bot-rust.".to_owned(),
        );
    }
    if !found.ethers {
        return Err(
            "Missing ethers in bot-rust/node_modules. Run `npm install` in bot-rust.".to_owned(),
        );
    }
    Ok(())
}

/// A run of the helper.
pub struct HelperCommand {
    pub program: String,
    pub directory: String,
    pub script: String,
    pub variables: Vec<(String, String)>,
}

/// Builds the command that runs the helper: with node, in its root directory, and with no packages
/// but those below it. Nothing is run where one of them is missing.
pub fn build_helper_command(
    paths: &HelperPaths,
    found: FoundPackages,
    on_windows: bool,
    config: &Config,
    condition_id: &str,
) -> (r: Result<HelperCommand, String>)
    ensures
        r is Ok <==> found.complete(),
        match r {
            Ok(command) => {
                &&& command.program@ == (if on_windows {
                    "node.exe"@
                } else {
                    "node"@
                })
                &&& command.directory@ == paths.root@
                &&& command.script@ == paths.script@
                &&& text::pairs(command.variables@) == seq![("NODE_PATH"@, paths.node_modules@)]
                    + helper_variables(*config, condition_id@)
            },
            Err(message) => missing_package(found, paths.node_modules@) == Some(message@),
        },
{
    match resolve_local_node_modules(paths.node_modules.as_str(), found) {
        Ok(_) => {},
        Err(message) => {
            return Err(message);
        },
    }
    let mut variables: Vec<(String, String)> = Vec::new();
    variables.push(variable("NODE_PATH", paths.node_modules.as_str()));
    let mut rest = variables_of(config, condition_id);
    let ghost first = variables@;
    let ghost others = rest@;
    variables.append(&mut rest);
    proof {
        assert(text::pairs(variables@) =~= text::pairs(first) + text::pairs(others));
        assert(text::pairs(first) =~= seq![("NODE_PATH"@, paths.node_modules@)]);
    }
    Ok(
        HelperCommand {
            program: if on_windows {
                "node.exe".to_owned()
            } else {
                "node".to_owned()
            },
            directory: paths.root.clone(),
            script: paths.script.clone(),
            variables,
        },
    )
}

/// The helper runs on the packages below its own root and on no others: it is told of one package
/// directory, which lies there, and it is told of the condition it claims on.
pub proof fn helper_runs_on_local_packages(
    config: Config,
    condition_id: Seq<char>,
    paths: HelperPaths,
    root: Seq<char>,
    variables: Seq<(Seq<char>, Seq<char>)>,
)
    requires
        paths.below(root),
        variables == seq![("NODE_PATH"@, paths.node_modules@)] + helper_variables(
            config,
            condition_id,
        ),
    ensures
        forall|i: int|
            0 <= i < variables.len() && (#[trigger] variables[i]).0 == "NODE_PATH"@
                ==> crate::utils::paths::leads_to(variables[i].1, root, "node_modules"@),
        exists|i: int|
            0 <= i < variables.len() && (#[trigger] variables[i]).0 == "NODE_PATH"@,
        exists|i: int|
            0 <= i < variables.len() && #[trigger] variables[i] == (
                "CONDITION_ID"@,
                text::trimmed(condition_id),
            ),
{
    reveal_strlit("NODE_PATH");
    reveal_strlit("RELAYER_BASE_URL");
    reveal_strlit("RELAYER_API_KEY");
    reveal_strlit("RELAYER_API_KEY_ADDRESS");
    reveal_strlit("PRIVATE_KEY");
    reveal_strlit("POLYGON_RPC_URL");
    reveal_strlit("RELAYER_REQUEST_TIMEOUT_MS");
    reveal_strlit("RELAYER_POLL_INTERVAL_MS");
    reveal_strlit("RELAYER_MAX_POLLS");
    reveal_strlit("CTF_CONTRACT");
    reveal_strlit("USDC_E");
    reveal_strlit("CONDITION_ID");
    assert(variables[0].0 == "NODE_PATH"@);
    assert(variables[11] == ("CONDITION_ID"@, text::trimmed(condition_id)));
    assert forall|i: int|
        0 <= i < variables.len() && (#[trigger] variables[i]).0 == "NODE_PATH"@ implies i == 0 by {
        if i > 0 {
            assert(variables[i] == helper_variables(config, condition_id)[i - 1]);
            assert("NODE_PATH"@[0] == 'N');
            assert(variables[i].0[0] != 'N');
        }
    }
}

/// The lines that may hold the helper's answer, the last one first.
pub open spec fn answer_lines(lines: Seq<Seq<char>>) -> Seq<Seq<char>>
    decreases lines.len(),
{
    if lines.len() == 0 {
        Seq::empty()
    } else {
        let rest = answer_lines(lines.drop_last());
        let last = text::trimmed(lines.last());
        if text::begins_with(last, "{"@) {
            seq![last] + rest
        } else {
            rest
        }
    }
}

/// The lines of the helper's output in which its answer is to be looked for.
pub fn parse_helper_output(stdout: &str) -> (r: Vec<String>)
    ensures
        text::texts(r@) == answer_lines(text::pieces(stdout@, '\n')),
{
    let lines = text::split(stdout, '\n');
    let ghost all = text::texts(lines@);
    let mut out: Vec<String> = Vec::new();
    let mut n: usize = lines.len();
    assert(all.take(n as int) =~= all);
    assert(text::texts(out@) + answer_lines(all) =~= answer_lines(all));
    while n > 0
        invariant
            n <= lines.len(),
            all == text::texts(lines@),
            text::texts(out@) + answer_lines(all.take(n as int)) == answer_lines(all),
        decreases n,
    {
        let ghost part = all.take(n as int);
        n = n - 1;
        proof {
            assert(part.drop_last() =~= all.take(n as int));
            assert(part.last() == lines@[n as int]@);
        }
        let line = text::trim(lines[n].as_str());
        if text::starts_with(line, "{") {
            let ghost before = text::texts(out@);
            out.push(line.to_owned());
            proof {
                assert(text::texts(out@) =~= before.push(line@));
                assert(before + (seq![line@] + answer_lines(all.take(n as int))) =~= before.push(
                    line@,
                ) + answer_lines(all.take(n as int)));
            }
        }
    }
    assert(text::texts(out@) + answer_lines(all.take(0)) =~= text::texts(out@));
    out
}

/// An output of the helper, cut short.
pub open spec fn excerpt(s: Seq<char>) -> Seq<char> {
    text::cut(text::trimmed(s), 220)
}

pub open spec fn text_or(s: Option<String>, other: Seq<char>) -> Seq<char> {
    match s {
        Some(t) => t@,
        None => other,
    }
}

/// What a run of the helper comes to: the hash of the transaction, or what went wrong.
pub open spec fn relay_outcome(
    success: bool,
    exit_code: Option<i32>,
    answer: Option<RelayerHelperOutput>,
    stdout: Seq<char>,
    stderr: Seq<char>,
) -> Result<Seq<char>, Seq<char>> {
    match answer {
        None => if !success {
            Err(
                "relayer helper exited with status="@ + (match exit_code {
                    Some(code) => text::decimal_int(code as int),
                    None => "signal"@,
                }) + " stdout="@ + excerpt(stdout) + " stderr="@ + excerpt(stderr),
            )
        } else {
            Err(
                "relayer helper returned unparseable output: stdout="@ + excerpt(stdout)
                    + " stderr="@ + excerpt(stderr),
            )
        },
        Some(payload) => if !success {
            Err("relayer helper failed: "@ + text_or(payload.error, "unknown helper error"@))
        } else if !payload.ok {
            Err(
                "relayer helper reported error: "@ + text_or(
                    payload.error,
                    "unknown relayer error"@,
                ),
            )
        } else {
            match payload.tx_hash {
                None => Err("relayer helper missing txHash"@),
                Some(hash) => if text::bytes32(hash@) {
                    Ok(hash@)
                } else {
                    Err("relayer helper returned invalid tx hash: "@ + hash@)
                },
            }
        },
    }
}

/// Judges a run of the helper by how it ended, what it answered and what it printed.
pub fn relay_redeem_positions(
    success: bool,
    exit_code: Option<i32>,
    answer: Option<RelayerHelperOutput>,
    stdout: &str,
    stderr: &str,
) -> (r: Result<String, String>)
    ensures
        match r {
            Ok(hash) => relay_outcome(success, exit_code, answer, stdout@, stderr@) == Ok::<
                Seq<char>,
                Seq<char>,
            >(hash@),
            Err(message) => relay_outcome(success, exit_code, answer, stdout@, stderr@) == Err::<
                Seq<char>,
                Seq<char>,
            >(message@),
        },
{
    let out = text::truncate_text(text::trim(stdout), 220);
    let err = text::truncate_text(text::trim(stderr), 220);
    let payload = match answer {
        Some(payload) => payload,
        None => {
            if !success {
                let code = match exit_code {
                    Some(c) => text::decimal_i64(c as i64),
                    None => "signal".to_owned(),
                };
                let mut message = "relayer helper exited with status=".to_owned();
                message.append(code.as_str());
                message.append(" stdout=");
                message.append(out.as_str());
                message.append(" stderr=");
                message.append(err.as_str());
                return Err(message);
            }
            let mut message = "relayer helper returned unparseable output: stdout=".to_owned();
            message.append(out.as_str());
            message.append(" stderr=");
            message.append(err.as_str());
            return Err(message);
        },
    };
    if !success {
        let mut message = "relayer helper failed: ".to_owned();
        match payload.error {
            Some(e) => {
                message.append(e.as_str());
            },
            None => {
                message.append("unknown helper error");
            },
        }
        return Err(message);
    }
    if !payload.ok {
        let mut message = "relayer helper reported error: ".to_owned();
        match payload.error {
            Some(e) => {
                message.append(e.as_str());
            },
            None => {
                message.append("unknown relayer error");
            },
        }
        return Err(message);
    }
    match payload.tx_hash {
        None => Err("relayer helper missing txHash".to_owned()),
        Some(hash) => if text::is_bytes32(hash.as_str()) {
            Ok(hash)
        } else {
            let mut message = "relayer helper returned invalid tx hash: ".to_owned();
            message.append(hash.as_str());
            Err(message)
        },
    }
}

/// A claim through the relayer succeeds only with the hash of a transaction.
pub proof fn relay_success_has_a_hash(
    success: bool,
    exit_code: Option<i32>,
    answer: Option<RelayerHelperOutput>,
    stdout: Seq<char>,
    stderr: Seq<char>,
)
    ensures
        relay_outcome(success, exit_code, answer, stdout, stderr) matches Ok(hash) ==> {
            &&& success
            &&& text::bytes32(hash)
        },
{
}

/// A claim can be made through the relayer exactly where its condition is a hash and the key, the
/// relayer's key and its address are all given; the first of them that is missing is complained of.
pub proof fn relay_needs_its_settings(config: Config, condition_id: Seq<char>)
    ensures
        ({
            let hash = text::bytes32(text::trimmed(condition_id));
            let key = text::trimmed(config.private_key@).len() > 0;
            let api_key = config.relayer_api_key matches Some(s) && text::trimmed(s@).len() > 0;
            let address = config.relayer_api_key_address matches Some(s) && text::trimmed(
                s@,
            ).len() > 0;
            let obstacle = relay_obstacle(config, condition_id);
            &&& obstacle is None <==> hash && key && api_key && address
            &&& !hash ==> obstacle == Some(
                "Invalid conditionId for relayer redeem: "@ + text::trimmed(condition_id),
            )
            &&& hash && !key ==> obstacle == Some("PRIVATE_KEY is required for relayer redeem"@)
            &&& hash && key && !api_key ==> obstacle == Some(
                "RELAYER_API_KEY is required for relayer redeem"@,
            )
            &&& hash && key && api_key && !address ==> obstacle == Some(
                "RELAYER_API_KEY_ADDRESS is required for relayer redeem"@,
            )
        }),
{
}

/// A run of the helper succeeds exactly where it ended well, answered well and named a hash, and
/// comes to that hash. Otherwise the error that the helper gave is handed on.
pub proof fn helper_run_comes_to_its_hash(
    success: bool,
    exit_code: Option<i32>,
    answer: Option<RelayerHelperOutput>,
    stdout: Seq<char>,
    stderr: Seq<char>,
)
    ensures
        ({
            let outcome = relay_outcome(success, exit_code, answer, stdout, stderr);
            &&& outcome is Ok <==> success && answer is Some && answer->Some_0.ok
                && answer->Some_0.tx_hash is Some && text::bytes32(answer->Some_0.tx_hash->Some_0@)
            &&& outcome matches Ok(hash) ==> hash == answer->Some_0.tx_hash->Some_0@
            &&& !success && answer is Some && answer->Some_0.error is Some ==> outcome == Err::<
                Seq<char>,
                Seq<char>,
            >("relayer helper failed: "@ + answer->Some_0.error->Some_0@)
            &&& success && answer is Some && !answer->Some_0.ok && answer->Some_0.error is Some
                ==> outcome == Err::<Seq<char>, Seq<char>>(
                "relayer helper reported error: "@ + answer->Some_0.error->Some_0@,
            )
            &&& success && answer is Some && answer->Some_0.ok && answer->Some_0.tx_hash is None
                ==> outcome == Err::<Seq<char>, Seq<char>>("relayer helper missing txHash"@)
            &&& success && answer is None ==> (outcome matches Err(message) && text::begins_with(
                message,
                "relayer helper returned unparseable output: stdout="@,
            ))
            &&& !success && answer is None ==> (outcome matches Err(message) && text::begins_with(
                message,
                "relayer helper exited with status="@ + (if exit_code is Some {
                    text::decimal_int(exit_code->Some_0 as int)
                } else {
                    "signal"@
                }),
            ))
        }),
{
    match relay_outcome(success, exit_code, answer, stdout, stderr) {
        Err(message) => {
            let a = "relayer helper returned unparseable output: stdout="@;
            let b = "relayer helper exited with status="@ + (if exit_code is Some {
                text::decimal_int(exit_code->Some_0 as int)
            } else {
                "signal"@
            });
            if answer is None && success {
                assert(message.subrange(0, a.len() as int) =~= a);
            }
            if answer is None && !success {
                assert(message.subrange(0, b.len() as int) =~= b);
            }
        },
        Ok(_) => {},
    }
}

/// What the helper printed is told with at most 220 characters, from its beginning and without the
/// white space around it.
pub proof fn excerpt_is_the_beginning(s: Seq<char>)
    ensures
        excerpt(s).len() <= 220,
        excerpt(s).is_prefix_of(text::trimmed(s)),
        text::trimmed(s).len() <= 220 ==> excerpt(s) == text::trimmed(s),
{
    text::cut_text_keeps_its_beginning(text::trimmed(s), 220);
}

/// The helper is told the settings of the claim, each under its name.
pub proof fn helper_is_told_the_settings(config: Config, condition_id: Seq<char>)
    requires
        config.relayer_api_key is Some,
        config.relayer_api_key_address is Some,
    ensures
        ({
            let v = helper_variables(config, condition_id);
            &&& v.len() == 11
            &&& v.contains(("RELAYER_BASE_URL"@, text::trimmed(config.relayer_base_url@)))
            &&& v.contains(("RELAYER_API_KEY"@, text::trimmed(config.relayer_api_key->Some_0@)))
            &&& v.contains(
                (
                    "RELAYER_API_KEY_ADDRESS"@,
                    text::trimmed(config.relayer_api_key_address->Some_0@),
                ),
            )
            &&& v.contains(("PRIVATE_KEY"@, text::trimmed(config.private_key@)))
            &&& v.contains(("POLYGON_RPC_URL"@, text::trimmed(config.polygon_rpc_url@)))
            &&& v.contains(
                (
                    "RELAYER_REQUEST_TIMEOUT_MS"@,
                    text::decimal(config.relayer_request_timeout_ms as nat),
                ),
            )
            &&& v.contains(
                (
                    "RELAYER_POLL_INTERVAL_MS"@,
                    text::decimal(config.relayer_poll_interval_ms as nat),
                ),
            )
            &&& v.contains(
                ("RELAYER_MAX_POLLS"@, text::decimal(config.relayer_max_polls as nat)),
            )
            &&& v.contains(("CTF_CONTRACT"@, text::trimmed(config.ctf_contract@)))
            &&& v.contains(("USDC_E"@, text::trimmed(config.usdc_address@)))
            &&& v.contains(("CONDITION_ID"@, text::trimmed(condition_id)))
        }),
{
    let v = helper_variables(config, condition_id);
    assert(v[0].0 == "RELAYER_BASE_URL"@);
    assert(v[1].0 == "RELAYER_API_KEY"@);
    assert(v[2].0 == "RELAYER_API_KEY_ADDRESS"@);
    assert(v[3].0 == "PRIVATE_KEY"@);
    assert(v[4].0 == "POLYGON_RPC_URL"@);
    assert(v[5].0 == "RELAYER_REQUEST_TIMEOUT_MS"@);
    assert(v[6].0 == "RELAYER_POLL_INTERVAL_MS"@);
    assert(v[7].0 == "RELAYER_MAX_POLLS"@);
    assert(v[8].0 == "CTF_CONTRACT"@);
    assert(v[9].0 == "USDC_E"@);
    assert(v[10].0 == "CONDITION_ID"@);
}

/// The root that the environment names is looked at first, and the others after it; where it names
/// none only the others are.
pub proof fn named_root_is_looked_at_first(from_env: Seq<char>, others: Seq<Seq<char>>)
    ensures
        text::trimmed(from_env).len() > 0 ==> bot_roots(Some(from_env), others).len() > 0
            && bot_roots(Some(from_env), others)[0] == text::trimmed(from_env),
        forall|s: Seq<char>|
            bot_roots(Some(from_env), others).contains(s) <==> (others.contains(s) || (
            text::trimmed(from_env).len() > 0 && s == text::trimmed(from_env))),
        text::trimmed(from_env).len() == 0 ==> bot_roots(Some(from_env), others) == bot_roots(
            None,
            others,
        ),
        bot_roots(Some(from_env), others).no_duplicates(),
{
    let all = if text::trimmed(from_env).len() == 0 {
        others
    } else {
        seq![text::trimmed(from_env)] + others
    };
    first_occurrences_are_unique(all);
    if text::trimmed(from_env).len() > 0 {
        lemma_first_stays_first(all);
        assert forall|s: Seq<char>|
            bot_roots(Some(from_env), others).contains(s) <==> (others.contains(s) || s
                == text::trimmed(from_env)) by {
            if others.contains(s) {
                let i = choose|i: int| 0 <= i < others.len() && others[i] == s;
                assert(all[i + 1] == s);
            }
            if s == text::trimmed(from_env) {
                assert(all[0] == s);
            }
            if all.contains(s) {
                let i = choose|i: int| 0 <= i < all.len() && all[i] == s;
                if i > 0 {
                    assert(others[i - 1] == s);
                }
            }
        }
    }
}

proof fn lemma_first_stays_first(candidates: Seq<Seq<char>>)
    requires
        candidates.len() > 0,
    ensures
        first_occurrences(candidates).len() > 0,
        first_occurrences(candidates)[0] == candidates[0],
    decreases candidates.len(),
{
    if candidates.len() > 1 {
        lemma_first_stays_first(candidates.drop_last());
    } else {
        assert(candidates.drop_last() =~= Seq::<Seq<char>>::empty());
        assert(!first_occurrences(candidates.drop_last()).contains(candidates[0]));
    }
}

/// The lines that may hold the answer begin with a brace, and the last line of the output is the
/// first of them where it does.
pub proof fn last_line_is_looked_at_first(lines: Seq<Seq<char>>, next: Seq<char>)
    ensures
        text::trimmed(next).len() > 0 && text::trimmed(next)[0] == '{' ==> answer_lines(
            lines.push(next),
        ) == seq![text::trimmed(next)] + answer_lines(lines),
        !(text::trimmed(next).len() > 0 && text::trimmed(next)[0] == '{') ==> answer_lines(
            lines.push(next),
        ) == answer_lines(lines),
        answer_lines(Seq::<Seq<char>>::empty()).len() == 0,
        forall|i: int|
            0 <= i < answer_lines(lines).len() ==> (#[trigger] answer_lines(lines)[i]).len() > 0
                && answer_lines(lines)[i][0] == '{',
    decreases lines.len(),
{
    reveal_strlit("{");
    assert(lines.push(next).drop_last() =~= lines);
    let t = text::trimmed(next);
    lemma_brace(t);
    if lines.len() > 0 {
        last_line_is_looked_at_first(lines.drop_last(), next);
        lemma_brace(text::trimmed(lines.last()));
    }
}

proof fn lemma_brace(t: Seq<char>)
    ensures
        text::begins_with(t, "{"@) <==> t.len() > 0 && t[0] == '{',
{
    reveal_strlit("{");
    if t.len() > 0 {
        assert(t.subrange(0, 1)[0] == t[0]);
        if t[0] == '{' {
            assert(t.subrange(0, 1) =~= "{"@);
        }
    }
}

/// The helper is run exactly where the package directory and both packages are there; the first
/// that is missing is complained of.
pub proof fn missing_package_is_named(found: FoundPackages, node_modules: Seq<char>)
    ensures
        missing_package(found, node_modules) is None <==> found.node_modules && found.relayer
            && found.ethers,
        !found.node_modules ==> missing_package(found, node_modules) == Some(
            "bot-rust local node_modules not found at "@ + node_modules
                + ". Run `npm install` in bot-rust."@,
        ),
        found.node_modules && !found.relayer ==> missing_package(found, node_modules) == Some(
            "Missing @polymarket/builder-relayer-client in bot-rust/node_modules. Run `npm install` in bot-rust."@,
        ),
        found.node_modules && found.relayer && !found.ethers ==> missing_package(
            found,
            node_modules,
        ) == Some("Missing ethers in bot-rust/node_modules. Run `npm install` in bot-rust."@),
        found.complete() <==> found.node_modules && found.relayer && found.ethers,
{
}

} // verus!
