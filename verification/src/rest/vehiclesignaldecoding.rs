//! The vehicle-signal-decoding client: device configuration, templates and
//! decoding jobs.

use vstd::prelude::*;
use vstd::string::*;

use crate::request::{AuthRequestParams, BodyValue, Method, RequestParams, TokenKind};
use crate::text::{concat2, concat3};

verus! {

/// The client for the vehicle-signal-decoding service.
pub struct VehicleSignalDecoding {
    base_url: String,
}

/// A body-less unauthenticated GET on this service.
fn simple_get(base_url: &String, path: String) -> (p: RequestParams)
    ensures
        p.method == Method::Get,
        p.base_url@ == base_url@,
        p.path@ == path@,
        p.query_params is None,
        p.body is None,
        p.headers is None,
{
    RequestParams {
        method: Method::Get,
        base_url: base_url.clone(),
        path,
        query_params: None,
        body: None,
        headers: None,
    }
}

/// A GET whose only query parameter is an optional protocol.
fn protocol_get(base_url: &String, path: String, protocol: Option<&str>) -> (p: RequestParams)
    ensures
        p.method == Method::Get,
        p.base_url@ == base_url@,
        p.path@ == path@,
        (match protocol {
            Option::Some(proto) => p.query_params matches Some(q) && q@.len() == 1 && q@[0].0@
                == "protocol"@ && q@[0].1@ == proto@,
            Option::None => p.query_params is None,
        }),
        p.body is None,
        p.headers is None,
{
    let query_params: Option<Vec<(String, String)>> = match protocol {
        Option::Some(proto) => {
            let mut q: Vec<(String, String)> = Vec::new();
            q.push(("protocol".to_owned(), proto.to_owned()));
            Some(q)
        },
        Option::None => None,
    };
    RequestParams {
        method: Method::Get,
        base_url: base_url.clone(),
        path,
        query_params,
        body: None,
        headers: None,
    }
}

impl VehicleSignalDecoding {
    /// The base URL this client was constructed with.
    pub closed spec fn base_url_spec(&self) -> Seq<char> {
        self.base_url@
    }

    pub fn new(base_url: &str) -> (r: Self)
        ensures
            r.base_url_spec() == base_url@,
    {
        Self { base_url: base_url.to_owned() }
    }

    /// Describes listing configuration URLs by VIN.
    pub fn list_config_urls_by_vin(&self, vin: &str, protocol: Option<&str>) -> (p: RequestParams)
        ensures
            p.method == Method::Get,
            p.base_url@ == self.base_url_spec(),
            p.path@ == "/v1/device-config/vin/"@ + vin@ + "/urls"@,
            (match protocol {
                Option::Some(proto) => p.query_params matches Some(q) && q@.len() == 1 && q@[0].0@
                    == "protocol"@ && q@[0].1@ == proto@,
                Option::None => p.query_params is None,
            }),
            p.body is None,
            p.headers is None,
    {
        protocol_get(&self.base_url, concat3("/v1/device-config/vin/", vin, "/urls"), protocol)
    }

    /// Describes listing configuration URLs by device address.
    pub fn list_config_urls_by_address(&self, address: &str, protocol: Option<&str>) -> (p:
        RequestParams)
        ensures
            p.method == Method::Get,
            p.base_url@ == self.base_url_spec(),
            p.path@ == "/v1/device-config/eth-addr/"@ + address@ + "/urls"@,
            (match protocol {
                Option::Some(proto) => p.query_params matches Some(q) && q@.len() == 1 && q@[0].0@
                    == "protocol"@ && q@[0].1@ == proto@,
                Option::None => p.query_params is None,
            }),
            p.body is None,
            p.headers is None,
    {
        protocol_get(
            &self.base_url,
            concat3("/v1/device-config/eth-addr/", address, "/urls"),
            protocol,
        )
    }

    /// Describes fetching a template's PID configurations.
    pub fn get_pid_configs(&self, template_name: &str) -> (p: RequestParams)
        ensures
            p.method == Method::Get,
            p.base_url@ == self.base_url_spec(),
            p.path@ == "/v1/device-config/pids/"@ + template_name@,
            p.query_params is None,
            p.body is None,
            p.headers is None,
    {
        simple_get(&self.base_url, concat2("/v1/device-config/pids/", template_name))
    }

    /// Describes fetching a template's device settings.
    pub fn get_device_settings(&self, template_name: &str) -> (p: RequestParams)
        ensures
            p.method == Method::Get,
            p.base_url@ == self.base_url_spec(),
            p.path@ == "/v1/device-config/settings/"@ + template_name@,
            p.query_params is None,
            p.body is None,
            p.headers is None,
    {
        simple_get(&self.base_url, concat2("/v1/device-config/settings/", template_name))
    }

    /// Describes fetching a template's DBC text.
    pub fn get_dbc_text(&self, template_name: &str) -> (p: RequestParams)
        ensures
            p.method == Method::Get,
            p.base_url@ == self.base_url_spec(),
            p.path@ == "/v1/device-config/dbc/"@ + template_name@,
            p.query_params is None,
            p.body is None,
            p.headers is None,
    {
        simple_get(&self.base_url, concat2("/v1/device-config/dbc/", template_name))
    }

    /// Describes fetching a device's status by address.
    pub fn get_device_status_by_address(&self, address: &str) -> (p: RequestParams)
        ensures
            p.method == Method::Get,
            p.base_url@ == self.base_url_spec(),
            p.path@ == "/v1/device-config/eth-addr/"@ + address@ + "/status"@,
            p.query_params is None,
            p.body is None,
            p.headers is None,
    {
        simple_get(&self.base_url, concat3("/v1/device-config/eth-addr/", address, "/status"))
    }

    /// Describes updating a device's configuration status by address.
    pub fn set_device_status_by_address(&self, address: &str, config: serde_json::Value) -> (p:
        AuthRequestParams)
        ensures
            p.method == Method::Patch,
            p.base_url@ == self.base_url_spec(),
            p.path@ == "/v1/device-config/eth-addr/"@ + address@ + "/status"@,
            p.query_params is None,
            p.body matches Some(b) && b@.len() == 1 && b@[0].0@ == "config"@ && b@[0].1
                == BodyValue::Json(config),
            p.headers is None,
            p.token_kind == TokenKind::Privilege,
    {
        let mut body: Vec<(String, BodyValue)> = Vec::new();
        body.push(("config".to_owned(), BodyValue::Json(config)));
        AuthRequestParams {
            method: Method::Patch,
            base_url: self.base_url.clone(),
            path: concat3("/v1/device-config/eth-addr/", address, "/status"),
            query_params: None,
            body: Some(body),
            headers: None,
            token_kind: TokenKind::Privilege,
        }
    }

    /// Describes listing a device's decoding jobs by address.
    pub fn get_jobs_by_address(&self, address: &str) -> (p: RequestParams)
        ensures
            p.method == Method::Get,
            p.base_url@ == self.base_url_spec(),
            p.path@ == "/v1/device-config/eth-addr/"@ + address@ + "/jobs"@,
            p.query_params is None,
            p.body is None,
            p.headers is None,
    {
        simple_get(&self.base_url, concat3("/v1/device-config/eth-addr/", address, "/jobs"))
    }

    /// Describes listing a device's pending decoding jobs by address.
    pub fn get_pending_jobs_by_address(&self, address: &str) -> (p: RequestParams)
        ensures
            p.method == Method::Get,
            p.base_url@ == self.base_url_spec(),
            p.path@ == "/v1/device-config/eth-addr/"@ + address@ + "/jobs/pending"@,
            p.query_params is None,
            p.body is None,
            p.headers is None,
    {
        simple_get(&self.base_url, concat3("/v1/device-config/eth-addr/", address, "/jobs/pending"))
    }

    /// Describes updating a decoding job's status by device address.
    pub fn set_job_status_by_address(&self, address: &str, job_id: &str, status: &str) -> (p:
        AuthRequestParams)
        ensures
            p.method == Method::Patch,
            p.base_url@ == self.base_url_spec(),
            p.path@ == "/v1/device-config/eth-addr/"@ + address@ + "/jobs/"@ + job_id@ + "/"@
                + status@,
            p.query_params is None,
            p.body is None,
            p.headers is None,
            p.token_kind == TokenKind::Privilege,
    {
        let mut path = concat3("/v1/device-config/eth-addr/", address, "/jobs/");
        let tail = concat3(job_id, "/", status);
        path.append(tail.as_str());
        AuthRequestParams {
            method: Method::Patch,
            base_url: self.base_url.clone(),
            path,
            query_params: None,
            body: None,
            headers: None,
            token_kind: TokenKind::Privilege,
        }
    }
}

} // verus!
