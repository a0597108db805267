//! Request parameters for polling: the parts that carry no floating point.
use vstd::prelude::*;

verus! {

/// One key/value pair of the ad-signal parameters.
#[derive(Debug)]
pub struct CustomParams {
    pub key: String,
    pub value: String,
}

/// The ad-signal parameters of a request, in the order they were added.
#[derive(Debug)]
pub struct AdSignalsInfo {
    pub params: Vec<CustomParams>,
}

impl AdSignalsInfo {
    /// An empty parameter list.
    pub fn new() -> (r: AdSignalsInfo)
        ensures
            r.params@.len() == 0,
    {
        AdSignalsInfo { params: Vec::new() }
    }

    /// Appends the pair `key`, `value`.
    pub fn add_param(&mut self, key: String, value: String)
        ensures
            final(self).params@.len() == old(self).params@.len() + 1,
            final(self).params@.drop_last() == old(self).params@,
            final(self).params@.last().key == key,
            final(self).params@.last().value == value,
    {
        let param = CustomParams { key, value };
        self.params.push(param);
    }

    /// Removes every pair.
    pub fn clear_params(&mut self)
        ensures
            final(self).params@.len() == 0,
    {
        self.params = Vec::new();
    }
}

/// The session part of a request.
#[derive(Debug)]
pub struct RequestParams {
    pub session_id: String,
    pub internal_experiment_flags: Vec<String>,
    pub consistency_token_jars: Vec<String>,
}

impl RequestParams {
    /// A request for `session_id` with no flags and no token jars.
    pub fn new(session_id: String) -> (r: RequestParams)
        ensures
            r.session_id == session_id,
            r.internal_experiment_flags@.len() == 0,
            r.consistency_token_jars@.len() == 0,
    {
        RequestParams { session_id, internal_experiment_flags: Vec::new(), consistency_token_jars: Vec::new() }
    }
}

/// The user part of a request; it carries nothing.
#[derive(Debug)]
pub struct UserParams {}

/// Click-tracking parameters of a request.
#[derive(Debug)]
pub struct ClickTracking {
    pub click_tracking_params: String,
}

impl ClickTracking {
    /// The click-tracking block for `param`, or none.
    pub fn from_param(param: Option<String>) -> (r: Option<ClickTracking>)
        ensures
            match param {
                Some(p) => r matches Some(c) && c.click_tracking_params == p,
                None => r is None,
            },
    {
        match param {
            Some(click_tracking_params) => Some(ClickTracking { click_tracking_params }),
            None => None,
        }
    }
}

/// Whether the page that polls is hidden.
#[derive(Debug)]
pub struct WebClientInfo {
    pub is_document_hidden: bool,
}

/// The address of the page that polls.
#[derive(Debug)]
pub struct MainAppWebInfo {
    pub graft_url: String,
}

impl MainAppWebInfo {
    /// No page address.
    pub fn new() -> (r: MainAppWebInfo)
        ensures
            r.graft_url@.len() == 0,
    {
        MainAppWebInfo { graft_url: String::new() }
    }
}

} // verus!
