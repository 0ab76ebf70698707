//! The `ha_report` tool: checks its arguments, and turns the outcome of
//! fetching the home report into a tool result.
use vstd::prelude::*;

use crate::home_assistant::HomeAssistantClient;
use crate::scout::strip_trailing_slashes;
use crate::text::{append, chars_of, string_of};

verus! {

/// What a tool hands back to the agent.
pub struct ToolResult {
    pub success: bool,
    pub output: String,
    pub error: Option<String>,
}

/// An argument the tool needs and was not given as a string.
#[derive(Clone, Copy, Debug, PartialEq, Eq, Structural)]
pub enum ToolArgError {
    MissingBaseUrl,
    MissingAccessToken,
}

impl ToolArgError {
    pub open spec fn text(&self) -> Seq<char> {
        match self {
            ToolArgError::MissingBaseUrl => "Missing base_url"@,
            ToolArgError::MissingAccessToken => "Missing access_token"@,
        }
    }

    /// The error message shown to the agent.
    pub fn message(&self) -> (r: String)
        ensures
            r@ == self.text(),
    {
        match self {
            ToolArgError::MissingBaseUrl => "Missing base_url".to_owned(),
            ToolArgError::MissingAccessToken => "Missing access_token".to_owned(),
        }
    }
}

/// Fetches a summary of home status and analytics from Home Assistant.
pub struct HomeAssistantReportTool;

/// The error text of a failed report.
pub open spec fn failure_text(cause: Seq<char>) -> Seq<char> {
    "Failed to fetch Home Assistant insights: "@ + cause
}

impl HomeAssistantReportTool {
    pub fn new() -> (r: HomeAssistantReportTool) {
        HomeAssistantReportTool
    }

    pub fn name(&self) -> (r: &'static str)
        ensures
            r@ == "ha_report"@,
    {
        "ha_report"
    }

    pub fn description(&self) -> (r: &'static str)
        ensures
            r@ == "Fetch a summary of home status and analytics from Home Assistant."@,
    {
        "Fetch a summary of home status and analytics from Home Assistant."
    }

    /// The client for the call's arguments; the base URL is checked first.
    pub fn client_for(&self, base_url: Option<&str>, access_token: Option<&str>) -> (r: Result<
        HomeAssistantClient,
        ToolArgError,
    >)
        ensures
            base_url is None ==> r == Err::<HomeAssistantClient, ToolArgError>(
                ToolArgError::MissingBaseUrl,
            ),
            base_url is Some && access_token is None ==> r == Err::<
                HomeAssistantClient,
                ToolArgError,
            >(ToolArgError::MissingAccessToken),
            r is Ok <==> (base_url is Some && access_token is Some),
            r matches Ok(c) ==> c.base() == strip_trailing_slashes(base_url->0@) && c.token()
                == access_token->0@,
    {
        let base = match base_url {
            Some(b) => b,
            None => {
                return Err(ToolArgError::MissingBaseUrl);
            },
        };
        let token = match access_token {
            Some(t) => t,
            None => {
                return Err(ToolArgError::MissingAccessToken);
            },
        };
        Ok(HomeAssistantClient::new(base.to_owned(), token.to_owned()))
    }

    /// The tool result for the report text, or for the cause of its failure.
    pub fn report_result(&self, insights: Result<String, String>) -> (r: ToolResult)
        ensures
            r.success == insights is Ok,
            insights matches Ok(text) ==> r.output == text && r.error is None,
            insights matches Err(cause) ==> r.output@.len() == 0 && (r.error matches Some(e)
                && e@ == failure_text(cause@)),
    {
        match insights {
            Ok(text) => ToolResult { success: true, output: text, error: None },
            Err(cause) => {
                let mut cs = chars_of("Failed to fetch Home Assistant insights: ");
                append(&mut cs, &chars_of(cause.as_str()));
                ToolResult { success: false, output: String::new(), error: Some(string_of(&cs)) }
            },
        }
    }
}

} // verus!
