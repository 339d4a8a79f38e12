//! The outcome of posting a message to the webhook, and how it is reported.

use vstd::prelude::*;
use crate::fetch::{status_display, status_text_of};

verus! {

pub const DELIVERED_REPORT: &'static str = "Notify by Slack OK";
pub const FAILED_PREFIX: &'static str = "Notify by Slack Error: ";

/// How a delivery failed. It is reported, never retried.
#[derive(Debug, Clone, PartialEq, Eq)]
pub enum DeliveryError {
    /// The post did not complete; the text describes why.
    Transport(String),
    /// The webhook answered with a status code other than 200.
    BadStatus(u16),
}

impl DeliveryError {
    /// A status code carried by an error is a valid HTTP status code.
    pub open spec fn wf(&self) -> bool {
        self matches DeliveryError::BadStatus(code) ==> 100 <= *code <= 999
    }
}

/// Decides on the webhook's answer: only 200 counts as delivered.
pub fn check_delivery(status: u16) -> (r: Result<(), DeliveryError>)
    requires
        100 <= status <= 999,
    ensures
        r is Ok <==> status == 200,
        r is Err ==> r == Err::<(), DeliveryError>(DeliveryError::BadStatus(status)),
        r matches Err(e) ==> e.wf(),
{
    if status == 200 {
        Ok(())
    } else {
        Err(DeliveryError::BadStatus(status))
    }
}

/// The report line for a delivery outcome.
pub open spec fn report_spec(outcome: Result<(), DeliveryError>) -> Seq<char> {
    match outcome {
        Ok(()) => DELIVERED_REPORT@,
        Err(DeliveryError::BadStatus(code)) => FAILED_PREFIX@ + status_text_of(code),
        Err(DeliveryError::Transport(detail)) => FAILED_PREFIX@ + detail@,
    }
}

/// The line that reports a delivery outcome.
pub fn delivery_report(outcome: &Result<(), DeliveryError>) -> (r: String)
    requires
        outcome matches Err(e) ==> e.wf(),
    ensures
        r@ == report_spec(*outcome),
{
    match outcome {
        Ok(()) => String::from_str(DELIVERED_REPORT),
        Err(DeliveryError::BadStatus(code)) => {
            let mut r = String::from_str(FAILED_PREFIX);
            let status = status_display(*code);
            r.append(status.as_str());
            r
        },
        Err(DeliveryError::Transport(detail)) => {
            let mut r = String::from_str(FAILED_PREFIX);
            r.append(detail.as_str());
            r
        },
    }
}

} // verus!
