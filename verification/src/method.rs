//! The remote methods.

use vstd::prelude::*;

verus! {

/// A method of aria2 that the client calls.
#[derive(Clone, Copy, Debug, PartialEq, Eq, Structural)]
pub enum Method {
    AddUri,
    Remove,
    Pause,
    Unpause,
    TellStatus,
    GetGlobalStat,
    GetVersion,
    PurgeDownloadResult,
}

/// The name under which aria2 knows the method.
pub open spec fn method_name(method: Method) -> &'static str {
    match method {
        Method::AddUri => "aria2.addUri",
        Method::Remove => "aria2.remove",
        Method::Pause => "aria2.pause",
        Method::Unpause => "aria2.unpause",
        Method::TellStatus => "aria2.tellStatus",
        Method::GetGlobalStat => "aria2.getGlobalStat",
        Method::GetVersion => "aria2.getVersion",
        Method::PurgeDownloadResult => "aria2.purgeDownloadResult",
    }
}

impl From<Method> for &'static str {
    fn from(method: Method) -> (r: &'static str) {
        match method {
            Method::AddUri => "aria2.addUri",
            Method::Remove => "aria2.remove",
            Method::Pause => "aria2.pause",
            Method::Unpause => "aria2.unpause",
            Method::TellStatus => "aria2.tellStatus",
            Method::GetGlobalStat => "aria2.getGlobalStat",
            Method::GetVersion => "aria2.getVersion",
            Method::PurgeDownloadResult => "aria2.purgeDownloadResult",
        }
    }
}

impl vstd::std_specs::convert::FromSpecImpl<Method> for &'static str {
    open spec fn obeys_from_spec() -> bool {
        true
    }

    open spec fn from_spec(method: Method) -> &'static str {
        method_name(method)
    }
}

impl<'a> From<&'a Method> for &'static str {
    fn from(method: &'a Method) -> (r: &'static str) {
        <&'static str as From<Method>>::from(*method)
    }
}

impl<'a> vstd::std_specs::convert::FromSpecImpl<&'a Method> for &'static str {
    open spec fn obeys_from_spec() -> bool {
        true
    }

    open spec fn from_spec(method: &'a Method) -> &'static str {
        method_name(*method)
    }
}

} // verus!
