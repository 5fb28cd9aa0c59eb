//! From a launch request of the host to the configuration that the adapter
//! understands.

use crate::adapter::{verify_adapter_name, ADAPTER_NAME};
use crate::debugger::ProbeRsDebugger;
use crate::error::{outcome_view, DebuggerError, DebuggerErrorView, Feature};
use crate::json::{
    json_of, json_text, members_of, object_insert, object_new, value_array, value_bool,
    value_null, value_object, value_string, value_to_string, Json,
};
use crate::types::{
    DebugConfig, DebugRequest, DebugScenario, DebugScenarioView,
    StartDebuggingRequestArgumentsRequest,
};
use vstd::prelude::*;

verus! {

/// A string that may be absent: the string, or null.
pub open spec fn optional_text(text: Option<Seq<char>>) -> Json {
    match text {
        Some(text) => Json::Text(text),
        None => Json::Null,
    }
}

/// A truth value that may be absent: the value, or null.
pub open spec fn optional_bool(flag: Option<bool>) -> Json {
    match flag {
        Some(flag) => Json::Bool(flag),
        None => Json::Null,
    }
}

/// The one core that a launch configures: the program that runs on it.
pub open spec fn core_config(program: Seq<char>) -> Json {
    Json::Record(Map::empty().insert("programBinary"@, Json::Text(program)))
}

/// How the target is flashed. Flashing is always on, since the adapter has
/// no other way to start a program; the target halts after the reset if the
/// host asked to stop on entry.
pub open spec fn flashing_config(stop_on_entry: Option<bool>) -> Json {
    Json::Record(
        Map::empty().insert("flashingEnabled"@, Json::Bool(true)).insert(
            "haltAfterReset"@,
            optional_bool(stop_on_entry),
        ),
    )
}

/// The adapter's configuration for launching `program` in `cwd`.
pub open spec fn launch_config(
    cwd: Option<Seq<char>>,
    program: Seq<char>,
    stop_on_entry: Option<bool>,
) -> Json {
    Json::Record(
        Map::empty().insert("cwd"@, optional_text(cwd)).insert(
            "coreConfigs"@,
            Json::List(seq![core_config(program)]),
        ).insert("flashingConfig"@, flashing_config(stop_on_entry)).insert(
            "request"@,
            Json::Text("launch"@),
        ),
    )
}

/// What `dap_config_to_scenario` makes of a request. The adapter's name is
/// checked first. A launch may bring neither arguments nor environment
/// variables, which are looked at in that order; an attach is always
/// refused.
pub open spec fn scenario_of(config: DebugConfig) -> Result<DebugScenarioView, DebuggerErrorView> {
    if config.adapter@ != ADAPTER_NAME@ {
        Err(DebuggerErrorView::UnsupportedAdapter(config.adapter@))
    } else {
        match config.request {
            DebugRequest::Launch(launch) => if launch.args@.len() != 0 {
                Err(DebuggerErrorView::UnsupportedFeature(Feature::Arguments))
            } else if launch.envs@.len() != 0 {
                Err(DebuggerErrorView::UnsupportedFeature(Feature::Environment))
            } else {
                Ok(
                    DebugScenarioView {
                        label: config.label@,
                        adapter: config.adapter@,
                        build: None,
                        config: json_text(
                            launch_config(
                                launch.cwd.deep_view(),
                                launch.program@,
                                config.stop_on_entry,
                            ),
                        ),
                        tcp_connection: None,
                    },
                )
            },
            DebugRequest::Attach(_) => Err(
                DebuggerErrorView::UnsupportedRequestKind(
                    StartDebuggingRequestArgumentsRequest::Attach,
                ),
            ),
        }
    }
}

/// Every launch configuration turns flashing on, and halts after the reset
/// exactly as the host asked to stop on entry.
pub proof fn lemma_launch_config_flashes(
    cwd: Option<Seq<char>>,
    program: Seq<char>,
    stop_on_entry: Option<bool>,
)
    ensures
        launch_config(cwd, program, stop_on_entry).member("flashingConfig"@) == Some(
            flashing_config(stop_on_entry),
        ),
        flashing_config(stop_on_entry).member("flashingEnabled"@) == Some(Json::Bool(true)),
        flashing_config(stop_on_entry).member("haltAfterReset"@) == Some(
            optional_bool(stop_on_entry),
        ),
        launch_config(cwd, program, stop_on_entry).member("request"@) == Some(
            Json::Text("launch"@),
        ),
{
    reveal_strlit("flashingConfig");
    reveal_strlit("request");
    reveal_strlit("flashingEnabled");
    reveal_strlit("haltAfterReset");
    assert("flashingConfig"@.len() == 14);
    assert("request"@.len() == 7);
    assert("flashingEnabled"@.len() == 15);
    assert("haltAfterReset"@.len() == 14);
}

/// A request for the supported adapter that launches with arguments or
/// with environment variables is refused for that feature, whatever else it
/// holds.
pub proof fn lemma_launch_with_extras_is_refused(config: DebugConfig)
    requires
        config.adapter@ == ADAPTER_NAME@,
        config.request matches DebugRequest::Launch(launch) && (launch.args@.len() > 0
            || launch.envs@.len() > 0),
    ensures
        scenario_of(config) matches Err(DebuggerErrorView::UnsupportedFeature(_)),
{
}

/// A request for the supported adapter that attaches is refused as an
/// unsupported kind of request, and no scenario is made of any part of it.
pub proof fn lemma_attach_is_refused(config: DebugConfig)
    requires
        config.adapter@ == ADAPTER_NAME@,
        config.request is Attach,
    ensures
        scenario_of(config) == Err::<DebugScenarioView, DebuggerErrorView>(
            DebuggerErrorView::UnsupportedRequestKind(
                StartDebuggingRequestArgumentsRequest::Attach,
            ),
        ),
{
}

/// A request for the supported adapter that launches with neither
/// arguments nor environment variables is granted. The configuration that
/// it is given is the text of a document in which flashing is on and the
/// halt after the reset is as the request's stop on entry.
pub proof fn lemma_plain_launch_is_granted(config: DebugConfig)
    requires
        config.adapter@ == ADAPTER_NAME@,
        config.request matches DebugRequest::Launch(launch) && launch.args@.len() == 0
            && launch.envs@.len() == 0,
    ensures
        scenario_of(config) matches Ok(scenario) && scenario.config == json_text(
            launch_config(
                config.request->Launch_0.cwd.deep_view(),
                config.request->Launch_0.program@,
                config.stop_on_entry,
            ),
        ) && scenario.build is None && scenario.tcp_connection is None,
        flashing_config(config.stop_on_entry).member("flashingEnabled"@) == Some(Json::Bool(true)),
        flashing_config(config.stop_on_entry).member("haltAfterReset"@) == Some(
            optional_bool(config.stop_on_entry),
        ),
        launch_config(
            config.request->Launch_0.cwd.deep_view(),
            config.request->Launch_0.program@,
            config.stop_on_entry,
        ).member("flashingConfig"@) == Some(flashing_config(config.stop_on_entry)),
{
    lemma_launch_config_flashes(
        config.request->Launch_0.cwd.deep_view(),
        config.request->Launch_0.program@,
        config.stop_on_entry,
    );
}

/// Turning the same request into a scenario twice gives the same one, down to the
/// last character of its configuration, or the same refusal.
pub proof fn lemma_dap_config_to_scenario_repeats(
    config: DebugConfig,
    first: Result<DebugScenario, DebuggerError>,
    second: Result<DebugScenario, DebuggerError>,
)
    requires
        outcome_view(first) == scenario_of(config),
        outcome_view(second) == scenario_of(config),
    ensures
        outcome_view(first) == outcome_view(second),
        first matches Ok(scenario) ==> (second matches Ok(again) && scenario.config@
            == again.config@),
{
}

/// The document for a string that may be absent.
fn optional_text_value(text: Option<String>) -> (r: serde_json::Value)
    ensures
        json_of(r) == optional_text(text.deep_view()),
{
    match text {
        Some(text) => value_string(text),
        None => value_null(),
    }
}

/// The document for a truth value that may be absent.
fn optional_bool_value(flag: Option<bool>) -> (r: serde_json::Value)
    ensures
        json_of(r) == optional_bool(flag),
{
    match flag {
        Some(flag) => value_bool(flag),
        None => value_null(),
    }
}

/// Builds the adapter's configuration for launching `program` in `cwd`.
pub fn launch_document(cwd: Option<String>, program: String, stop_on_entry: Option<bool>) -> (r:
    serde_json::Value)
    ensures
        json_of(r) == launch_config(cwd.deep_view(), program@, stop_on_entry),
{
    let mut core = object_new();
    assert(members_of(core) =~= Map::empty());
    object_insert(&mut core, "programBinary".to_owned(), value_string(program));
    let mut cores: Vec<serde_json::Value> = Vec::new();
    cores.push(value_object(core));
    assert(cores@.map_values(|item: serde_json::Value| json_of(item)) =~= seq![
        core_config(program@),
    ]);

    let mut flashing = object_new();
    assert(members_of(flashing) =~= Map::empty());
    object_insert(&mut flashing, "flashingEnabled".to_owned(), value_bool(true));
    object_insert(&mut flashing, "haltAfterReset".to_owned(), optional_bool_value(stop_on_entry));

    let mut document = object_new();
    assert(members_of(document) =~= Map::empty());
    object_insert(&mut document, "cwd".to_owned(), optional_text_value(cwd));
    object_insert(&mut document, "coreConfigs".to_owned(), value_array(cores));
    object_insert(&mut document, "flashingConfig".to_owned(), value_object(flashing));
    object_insert(&mut document, "request".to_owned(), value_string("launch".to_owned()));
    value_object(document)
}

impl ProbeRsDebugger {
    /// Turns a request of the host into a scenario for the adapter.
    ///
    /// Only a launch without arguments and without environment variables
    /// can be served. Its scenario keeps the label and the adapter's name,
    /// has no build step and no fixed connection, and holds the launch
    /// configuration as JSON text.
    pub fn dap_config_to_scenario(&self, debug_config: DebugConfig) -> (r: Result<
        DebugScenario,
        DebuggerError,
    >)
        ensures
            outcome_view(r) == scenario_of(debug_config),
    {
        match verify_adapter_name(debug_config.adapter.as_str()) {
            Err(error) => { return Err(error); },
            Ok(()) => {},
        }
        match debug_config.request {
            DebugRequest::Launch(launch_request) => {
                if launch_request.args.len() != 0 {
                    return Err(DebuggerError::UnsupportedFeature(Feature::Arguments));
                }
                if launch_request.envs.len() != 0 {
                    return Err(DebuggerError::UnsupportedFeature(Feature::Environment));
                }
                let document = launch_document(
                    launch_request.cwd,
                    launch_request.program,
                    debug_config.stop_on_entry,
                );
                Ok(
                    DebugScenario {
                        label: debug_config.label,
                        adapter: debug_config.adapter,
                        build: None,
                        config: value_to_string(&document),
                        tcp_connection: None,
                    },
                )
            },
            DebugRequest::Attach(_) => Err(
                DebuggerError::UnsupportedRequestKind(
                    StartDebuggingRequestArgumentsRequest::Attach,
                ),
            ),
        }
    }
}

} // verus!
