//! Software management over MQTT: requests that arrive as JSON on an MQTT
//! topic are forwarded to a software-management plugin, and that plugin's
//! responses are published back on a result topic.
use vstd::prelude::*;

use crate::mqtt::OutgoingMessage;
use crate::mqtt::QoS;

verus! {

/// The configuration of the MQTT software-management plugin.
pub struct Config {
    /// The name of the plugin to send SM requests to
    pub target: String,
    /// The name of the mqtt plugin to send SM responses to
    pub mqtt_plugin_addr: String,
    /// The MQTT topic to send responses to
    pub result_topic: String,
}

/// A request as it arrives in JSON, tagged by its `type` field.
#[derive(Debug)]
pub enum SmRequest {
    List,
    Install { package_name: String },
    Update { package_name: String },
    Uninstall { package_name: String },
}

/// A response as it is published in JSON.
#[derive(Debug)]
pub enum SmResponse {
    List { list: Vec<String> },
    ListFailed { message: String },
    InstallingState { package_name: String, progress: usize },
    InstallingLogLine { package_name: String, log_line: String },
    InstallSucceeded { package_name: String },
    InstallFailed { package_name: String, failure_message: String },
    UpdatingState { package_name: String, progress: usize },
    UpdatingLogLine { package_name: String, log_line: String },
    UpdateSucceeded { package_name: String },
    UpdateFailed { package_name: String, failure_message: String },
    UninstallState { package_name: String, progress: usize },
    UninstallLogLine { package_name: String, log_line: String },
    UninstallSucceeded { package_name: String },
    UninstallFailed { package_name: String, failure_message: String },
}

/// The software-management requests that plugins exchange.
#[derive(Debug)]
pub enum SoftwareRequest {
    List,
    Install { package_name: String },
    Update { package_name: String },
    Uninstall { package_name: String },
}

/// The replies of a software-management plugin to an installation.
#[derive(Debug)]
pub enum InstallResponse {
    InstallProgress { package_name: String, progress: usize },
    InstallLogLine { package_name: String, log_line: String },
    InstallSucceeded { package_name: String },
    InstallFailed { package_name: String, failure_message: String },
}

/// The replies of a software-management plugin to a listing.
#[derive(Debug)]
pub enum ListResponse {
    List { list: Vec<String> },
    ListFailed { message: String },
}

/// The replies of a software-management plugin to an update.
#[derive(Debug)]
pub enum UpdateResponse {
    UpdateProgress { package_name: String, progress: usize },
    UpdateLogLine { package_name: String, log_line: String },
    UpdateSucceeded { package_name: String },
    UpdateFailed { package_name: String, failure_message: String },
}

/// The replies of a software-management plugin to an uninstallation.
#[derive(Debug)]
pub enum UninstallResponse {
    UninstallProgress { package_name: String, progress: usize },
    UninstallLogLine { package_name: String, log_line: String },
    UninstallSucceeded { package_name: String },
    UninstallFailed { package_name: String, failure_message: String },
}

/// How long the reply to a forwarded installation is awaited, in seconds.
pub const REPLY_TIMEOUT_SECS: u64 = 10;

/// What the plugin does with an incoming request: the request to send to
/// the target plugin, and whether to wait for the reply and publish it.
#[derive(Debug)]
pub struct Forward {
    pub request: SoftwareRequest,
    pub publish_reply: bool,
}

/// The request forwarded for an incoming request: the same operation on the
/// same package; only an installation's reply is awaited and published.
pub open spec fn forward_of(r: SmRequest) -> Forward {
    match r {
        SmRequest::List => Forward { request: SoftwareRequest::List, publish_reply: false },
        SmRequest::Install { package_name } => Forward {
            request: SoftwareRequest::Install { package_name },
            publish_reply: true,
        },
        SmRequest::Update { package_name } => Forward {
            request: SoftwareRequest::Update { package_name },
            publish_reply: false,
        },
        SmRequest::Uninstall { package_name } => Forward {
            request: SoftwareRequest::Uninstall { package_name },
            publish_reply: false,
        },
    }
}

pub open spec fn install_response_of(m: InstallResponse) -> SmResponse {
    match m {
        InstallResponse::InstallProgress { package_name, progress } => SmResponse::InstallingState {
            package_name,
            progress,
        },
        InstallResponse::InstallLogLine { package_name, log_line } => SmResponse::InstallingLogLine {
            package_name,
            log_line,
        },
        InstallResponse::InstallSucceeded { package_name } => SmResponse::InstallSucceeded {
            package_name,
        },
        InstallResponse::InstallFailed { package_name, failure_message } => SmResponse::InstallFailed {
            package_name,
            failure_message,
        },
    }
}

pub open spec fn list_response_of(m: ListResponse) -> SmResponse {
    match m {
        ListResponse::List { list } => SmResponse::List { list },
        ListResponse::ListFailed { message } => SmResponse::ListFailed { message },
    }
}

pub open spec fn update_response_of(m: UpdateResponse) -> SmResponse {
    match m {
        UpdateResponse::UpdateProgress { package_name, progress } => SmResponse::UpdatingState {
            package_name,
            progress,
        },
        UpdateResponse::UpdateLogLine { package_name, log_line } => SmResponse::UpdatingLogLine {
            package_name,
            log_line,
        },
        UpdateResponse::UpdateSucceeded { package_name } => SmResponse::UpdateSucceeded {
            package_name,
        },
        UpdateResponse::UpdateFailed { package_name, failure_message } => SmResponse::UpdateFailed {
            package_name,
            failure_message,
        },
    }
}

pub open spec fn uninstall_response_of(m: UninstallResponse) -> SmResponse {
    match m {
        UninstallResponse::UninstallProgress { package_name, progress } => SmResponse::UninstallState {
            package_name,
            progress,
        },
        UninstallResponse::UninstallLogLine { package_name, log_line } => SmResponse::UninstallLogLine {
            package_name,
            log_line,
        },
        UninstallResponse::UninstallSucceeded { package_name } => SmResponse::UninstallSucceeded {
            package_name,
        },
        UninstallResponse::UninstallFailed { package_name, failure_message } => SmResponse::UninstallFailed {
            package_name,
            failure_message,
        },
    }
}

pub struct MqttSMPlugin {
    pub target: String,
    pub mqtt_addr: String,
    pub response_topic: String,
}

impl MqttSMPlugin {
    pub fn new(target: String, mqtt_addr: String, response_topic: String) -> (p: Self)
        ensures
            p.target == target,
            p.mqtt_addr == mqtt_addr,
            p.response_topic == response_topic,
    {
        MqttSMPlugin { target, mqtt_addr, response_topic }
    }

    /// What to do with a request that arrived over MQTT.
    pub fn handle_request(&self, request: SmRequest) -> (f: Forward)
        ensures
            f == forward_of(request),
    {
        match request {
            SmRequest::List => Forward { request: SoftwareRequest::List, publish_reply: false },
            SmRequest::Install { package_name } => Forward {
                request: SoftwareRequest::Install { package_name },
                publish_reply: true,
            },
            SmRequest::Update { package_name } => Forward {
                request: SoftwareRequest::Update { package_name },
                publish_reply: false,
            },
            SmRequest::Uninstall { package_name } => Forward {
                request: SoftwareRequest::Uninstall { package_name },
                publish_reply: false,
            },
        }
    }

    pub fn install_response(&self, message: InstallResponse) -> (r: SmResponse)
        ensures
            r == install_response_of(message),
    {
        match message {
            InstallResponse::InstallProgress { package_name, progress } => SmResponse::InstallingState {
                package_name,
                progress,
            },
            InstallResponse::InstallLogLine { package_name, log_line } => SmResponse::InstallingLogLine {
                package_name,
                log_line,
            },
            InstallResponse::InstallSucceeded { package_name } => SmResponse::InstallSucceeded {
                package_name,
            },
            InstallResponse::InstallFailed { package_name, failure_message } => SmResponse::InstallFailed {
                package_name,
                failure_message,
            },
        }
    }

    pub fn list_response(&self, message: ListResponse) -> (r: SmResponse)
        ensures
            r == list_response_of(message),
    {
        match message {
            ListResponse::List { list } => SmResponse::List { list },
            ListResponse::ListFailed { message } => SmResponse::ListFailed { message },
        }
    }

    pub fn update_response(&self, message: UpdateResponse) -> (r: SmResponse)
        ensures
            r == update_response_of(message),
    {
        match message {
            UpdateResponse::UpdateProgress { package_name, progress } => SmResponse::UpdatingState {
                package_name,
                progress,
            },
            UpdateResponse::UpdateLogLine { package_name, log_line } => SmResponse::UpdatingLogLine {
                package_name,
                log_line,
            },
            UpdateResponse::UpdateSucceeded { package_name } => SmResponse::UpdateSucceeded {
                package_name,
            },
            UpdateResponse::UpdateFailed { package_name, failure_message } => SmResponse::UpdateFailed {
                package_name,
                failure_message,
            },
        }
    }

    pub fn uninstall_response(&self, message: UninstallResponse) -> (r: SmResponse)
        ensures
            r == uninstall_response_of(message),
    {
        match message {
            UninstallResponse::UninstallProgress { package_name, progress } => SmResponse::UninstallState {
                package_name,
                progress,
            },
            UninstallResponse::UninstallLogLine { package_name, log_line } => SmResponse::UninstallLogLine {
                package_name,
                log_line,
            },
            UninstallResponse::UninstallSucceeded { package_name } => SmResponse::UninstallSucceeded {
                package_name,
            },
            UninstallResponse::UninstallFailed { package_name, failure_message } => SmResponse::UninstallFailed {
                package_name,
                failure_message,
            },
        }
    }

    /// The MQTT message that publishes an encoded response on the result
    /// topic.
    pub fn response_message(&self, encoded: Vec<u8>) -> (m: OutgoingMessage)
        ensures
            m.payload == encoded,
            m.topic == self.response_topic,
            m.qos == QoS::AtLeastOnce,
    {
        OutgoingMessage::new(encoded, self.response_topic.clone())
    }
}

pub struct MqttSMPluginBuilder;

impl MqttSMPluginBuilder {
    pub fn kind_name() -> (s: &'static str)
        ensures
            s@ == "mqtt_sm"@,
    {
        "mqtt_sm"
    }

    /// Builds the plugin that a configuration describes.
    pub fn instantiate(config: Config) -> (p: MqttSMPlugin)
        ensures
            p.target == config.target,
            p.mqtt_addr == config.mqtt_plugin_addr,
            p.response_topic == config.result_topic,
    {
        MqttSMPlugin::new(config.target, config.mqtt_plugin_addr, config.result_topic)
    }
}

/// The package named in a response.
pub open spec fn response_package(r: SmResponse) -> Option<String> {
    match r {
        SmResponse::List { .. } | SmResponse::ListFailed { .. } => None,
        SmResponse::InstallingState { package_name, .. } => Some(package_name),
        SmResponse::InstallingLogLine { package_name, .. } => Some(package_name),
        SmResponse::InstallSucceeded { package_name } => Some(package_name),
        SmResponse::InstallFailed { package_name, .. } => Some(package_name),
        SmResponse::UpdatingState { package_name, .. } => Some(package_name),
        SmResponse::UpdatingLogLine { package_name, .. } => Some(package_name),
        SmResponse::UpdateSucceeded { package_name } => Some(package_name),
        SmResponse::UpdateFailed { package_name, .. } => Some(package_name),
        SmResponse::UninstallState { package_name, .. } => Some(package_name),
        SmResponse::UninstallLogLine { package_name, .. } => Some(package_name),
        SmResponse::UninstallSucceeded { package_name } => Some(package_name),
        SmResponse::UninstallFailed { package_name, .. } => Some(package_name),
    }
}

/// Responses to installations, updates and uninstallations name the same
/// package as the reply they report, and distinct replies give distinct
/// responses.
pub proof fn lemma_responses_keep_package(
    i: InstallResponse,
    i2: InstallResponse,
    u: UpdateResponse,
    x: UninstallResponse,
)
    ensures
        response_package(install_response_of(i)) == Some(
            match i {
                InstallResponse::InstallProgress { package_name, .. } => package_name,
                InstallResponse::InstallLogLine { package_name, .. } => package_name,
                InstallResponse::InstallSucceeded { package_name } => package_name,
                InstallResponse::InstallFailed { package_name, .. } => package_name,
            },
        ),
        response_package(update_response_of(u)) == Some(
            match u {
                UpdateResponse::UpdateProgress { package_name, .. } => package_name,
                UpdateResponse::UpdateLogLine { package_name, .. } => package_name,
                UpdateResponse::UpdateSucceeded { package_name } => package_name,
                UpdateResponse::UpdateFailed { package_name, .. } => package_name,
            },
        ),
        response_package(uninstall_response_of(x)) == Some(
            match x {
                UninstallResponse::UninstallProgress { package_name, .. } => package_name,
                UninstallResponse::UninstallLogLine { package_name, .. } => package_name,
                UninstallResponse::UninstallSucceeded { package_name } => package_name,
                UninstallResponse::UninstallFailed { package_name, .. } => package_name,
            },
        ),
        install_response_of(i) == install_response_of(i2) ==> i == i2,
{
}

/// Every request is forwarded as the same operation on the same package.
pub proof fn lemma_forward_keeps_request(r: SmRequest)
    ensures
        match (r, forward_of(r).request) {
            (SmRequest::List, SoftwareRequest::List) => true,
            (SmRequest::Install { package_name: a }, SoftwareRequest::Install { package_name: b }) => a
                == b,
            (SmRequest::Update { package_name: a }, SoftwareRequest::Update { package_name: b }) => a
                == b,
            (SmRequest::Uninstall { package_name: a }, SoftwareRequest::Uninstall { package_name: b }) => a
                == b,
            _ => false,
        },
        forward_of(r).publish_reply <==> r is Install,
{
}

/// Each reply is published as the response of the same kind with the same
/// fields: progress as a state, a log line as a log line, success as
/// success, failure with its message as failure; a listing as a listing.
pub proof fn lemma_responses_keep_kind_and_fields(p: String, m: String, n: usize, list: Vec<String>)
    ensures
        install_response_of(InstallResponse::InstallProgress { package_name: p, progress: n })
            == (SmResponse::InstallingState { package_name: p, progress: n }),
        install_response_of(InstallResponse::InstallLogLine { package_name: p, log_line: m })
            == (SmResponse::InstallingLogLine { package_name: p, log_line: m }),
        install_response_of(InstallResponse::InstallSucceeded { package_name: p })
            == (SmResponse::InstallSucceeded { package_name: p }),
        install_response_of(InstallResponse::InstallFailed { package_name: p, failure_message: m })
            == (SmResponse::InstallFailed { package_name: p, failure_message: m }),
        update_response_of(UpdateResponse::UpdateProgress { package_name: p, progress: n })
            == (SmResponse::UpdatingState { package_name: p, progress: n }),
        update_response_of(UpdateResponse::UpdateLogLine { package_name: p, log_line: m })
            == (SmResponse::UpdatingLogLine { package_name: p, log_line: m }),
        update_response_of(UpdateResponse::UpdateSucceeded { package_name: p })
            == (SmResponse::UpdateSucceeded { package_name: p }),
        update_response_of(UpdateResponse::UpdateFailed { package_name: p, failure_message: m })
            == (SmResponse::UpdateFailed { package_name: p, failure_message: m }),
        uninstall_response_of(UninstallResponse::UninstallProgress { package_name: p, progress: n })
            == (SmResponse::UninstallState { package_name: p, progress: n }),
        uninstall_response_of(UninstallResponse::UninstallLogLine { package_name: p, log_line: m })
            == (SmResponse::UninstallLogLine { package_name: p, log_line: m }),
        uninstall_response_of(UninstallResponse::UninstallSucceeded { package_name: p })
            == (SmResponse::UninstallSucceeded { package_name: p }),
        uninstall_response_of(UninstallResponse::UninstallFailed { package_name: p, failure_message: m })
            == (SmResponse::UninstallFailed { package_name: p, failure_message: m }),
        list_response_of(ListResponse::List { list }) == (SmResponse::List { list }),
        list_response_of(ListResponse::ListFailed { message: m }) == (SmResponse::ListFailed { message: m }),
{
}

/// Distinct replies are published as distinct responses.
pub proof fn lemma_responses_distinct(
    i1: InstallResponse,
    i2: InstallResponse,
    u1: UpdateResponse,
    u2: UpdateResponse,
    x1: UninstallResponse,
    x2: UninstallResponse,
    l1: ListResponse,
    l2: ListResponse,
)
    ensures
        install_response_of(i1) == install_response_of(i2) ==> i1 == i2,
        update_response_of(u1) == update_response_of(u2) ==> u1 == u2,
        uninstall_response_of(x1) == uninstall_response_of(x2) ==> x1 == x2,
        list_response_of(l1) == list_response_of(l2) ==> l1 == l2,
{
}

/// Every request is forwarded as the same request: listing as listing, and
/// installing, updating and uninstalling the same package; only an
/// installation's reply is awaited and published.
pub proof fn lemma_forward_of_each_request(p: String)
    ensures
        forward_of(SmRequest::List).request == SoftwareRequest::List,
        !forward_of(SmRequest::List).publish_reply,
        forward_of(SmRequest::Install { package_name: p }).request == (SoftwareRequest::Install {
            package_name: p,
        }),
        forward_of(SmRequest::Install { package_name: p }).publish_reply,
        forward_of(SmRequest::Update { package_name: p }).request == (SoftwareRequest::Update {
            package_name: p,
        }),
        !forward_of(SmRequest::Update { package_name: p }).publish_reply,
        forward_of(SmRequest::Uninstall { package_name: p }).request == (SoftwareRequest::Uninstall {
            package_name: p,
        }),
        !forward_of(SmRequest::Uninstall { package_name: p }).publish_reply,
{
}

} // verus!
