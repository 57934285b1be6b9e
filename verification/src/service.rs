//! The one capability of a provider, sending a message to a list of
//! numbers, and the choice of the provider from the configuration.

use vstd::prelude::*;
use crate::alcatel::{
    begin, idle_session, Action, ActionView, AlcatelSmsService, SendSession, SessionView,
};
use crate::config::{SmsApiConf, SmsApiProvider};
use crate::error::SmsError;
use crate::text::strs;
use crate::void::VoidSmsService;

verus! {

/// A provider through which messages are sent.
///
/// `send_sms` begins a send and returns its state with the first thing to
/// do. The caller does it, hands what came of it to `SendSession::advance`,
/// and goes on so until the action is `Done`.
pub trait SmsService {
    /// The state and first action of a send through this provider.
    spec fn first_step(&self, msg: Seq<char>, numbers: Seq<Seq<char>>) -> (SessionView, ActionView);

    /// Begins a send of `msg` to `phone_numbers`, in their order.
    fn send_sms(&self, msg: &str, phone_numbers: &[&str]) -> (start: (SendSession, Action))
        ensures
            (start.0@, start.1@) == self.first_step(msg@, strs(phone_numbers@)),
    ;
}

impl SmsService for VoidSmsService {
    open spec fn first_step(&self, msg: Seq<char>, numbers: Seq<Seq<char>>) -> (
        SessionView,
        ActionView,
    ) {
        (idle_session(), ActionView::Done(Ok(())))
    }

    fn send_sms(&self, msg: &str, phone_numbers: &[&str]) -> (start: (SendSession, Action)) {
        self.send_nothing()
    }
}

impl SmsService for AlcatelSmsService {
    open spec fn first_step(&self, msg: Seq<char>, numbers: Seq<Seq<char>>) -> (
        SessionView,
        ActionView,
    ) {
        begin(self.url(), self.retry_count(), self.retry_delay(), msg, numbers)
    }

    fn send_sms(&self, msg: &str, phone_numbers: &[&str]) -> (start: (SendSession, Action)) {
        self.send_all_sms(msg, phone_numbers)
    }
}

/// The provider that the configuration chose: one of a closed set.
#[derive(Debug)]
pub enum SmsGateway {
    Void(VoidSmsService),
    Alcatel(AlcatelSmsService),
}

impl SmsService for SmsGateway {
    open spec fn first_step(&self, msg: Seq<char>, numbers: Seq<Seq<char>>) -> (
        SessionView,
        ActionView,
    ) {
        match *self {
            SmsGateway::Void(service) => service.first_step(msg, numbers),
            SmsGateway::Alcatel(service) => service.first_step(msg, numbers),
        }
    }

    fn send_sms(&self, msg: &str, phone_numbers: &[&str]) -> (start: (SendSession, Action)) {
        match self {
            SmsGateway::Void(service) => service.send_sms(msg, phone_numbers),
            SmsGateway::Alcatel(service) => service.send_sms(msg, phone_numbers),
        }
    }
}

/// Whether `gateway` is the provider that `config` describes.
pub open spec fn chosen(config: SmsApiConf, gateway: SmsGateway) -> bool {
    match config.provider {
        SmsApiProvider::Void => gateway is Void,
        SmsApiProvider::Alcatel { url, retry_count, retry_delay } => gateway matches SmsGateway::Alcatel(
            service,
        ) && service.url() == url@ && service.retry_count() == retry_count
            && service.retry_delay() == retry_delay,
    }
}

/// Chooses the provider that the configuration names. The choice depends
/// on the configuration alone and always succeeds.
pub fn create_service(sms_api_config: &SmsApiConf) -> (service: Result<SmsGateway, SmsError>)
    ensures
        service matches Ok(gateway) && chosen(*sms_api_config, gateway),
{
    match &sms_api_config.provider {
        SmsApiProvider::Void => Ok(SmsGateway::Void(VoidSmsService)),
        SmsApiProvider::Alcatel { url, retry_count, retry_delay } => {
            match AlcatelSmsService::new(url.as_str(), *retry_count, *retry_delay) {
                Ok(service) => Ok(SmsGateway::Alcatel(service)),
                Err(error) => Err(error),
            }
        },
    }
}

} // verus!
