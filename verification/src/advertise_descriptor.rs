//! The names an advertisement is described by, and how an advertisement is
//! started from them.

use vstd::prelude::*;
use vstd::string::StringExecFns;
use vstd::string::StringSliceAdditionalSpecFns;

use crate::error::NetworkError;
use crate::text::{c_string_bytes, c_string_outcome, has_nul, optional_c_string, optional_str_bytes};

verus! {

/// The names recorded when an advertise descriptor is created: the Bonjour
/// instance name, type and domain, or the application-service name.
#[derive(Debug, Clone)]
pub struct AdvertiseNames {
    bonjour_name: Option<String>,
    bonjour_type: Option<String>,
    bonjour_domain: Option<String>,
    application_service_name: Option<String>,
}

/// The view of an optional string.
pub open spec fn optional_string_view(s: Option<String>) -> Option<Seq<char>> {
    match s {
        Some(v) => Some(v@),
        None => None,
    }
}

/// The view of an optional string slice.
pub open spec fn optional_str_view(s: Option<&str>) -> Option<Seq<char>> {
    match s {
        Some(v) => Some(v@),
        None => None,
    }
}

fn owned(s: Option<&str>) -> (r: Option<String>)
    ensures
        optional_string_view(r) == optional_str_view(s),
{
    match s {
        Some(v) => Some(String::from_str(v)),
        None => None,
    }
}

fn borrowed(s: &Option<String>) -> (r: Option<&str>)
    ensures
        optional_str_view(r) == optional_string_view(*s),
{
    match s {
        Some(v) => Some(v.as_str()),
        None => None,
    }
}

impl View for AdvertiseNames {
    type V = (Option<Seq<char>>, Option<Seq<char>>, Option<Seq<char>>, Option<Seq<char>>);

    closed spec fn view(&self) -> Self::V {
        (
            optional_string_view(self.bonjour_name),
            optional_string_view(self.bonjour_type),
            optional_string_view(self.bonjour_domain),
            optional_string_view(self.application_service_name),
        )
    }
}

impl AdvertiseNames {
    /// The names of a Bonjour advertisement.
    pub fn bonjour(name: Option<&str>, service_type: &str, domain: Option<&str>) -> (n: Self)
        ensures
            n@ == (optional_str_view(name), Some(service_type@), optional_str_view(domain), None::<Seq<char>>),
    {
        AdvertiseNames {
            bonjour_name: owned(name),
            bonjour_type: Some(String::from_str(service_type)),
            bonjour_domain: owned(domain),
            application_service_name: None,
        }
    }

    /// The name of an application-service advertisement.
    pub fn application_service(application_service_name: &str) -> (n: Self)
        ensures
            n@ == (None::<Seq<char>>, None::<Seq<char>>, None::<Seq<char>>, Some(application_service_name@)),
    {
        AdvertiseNames {
            bonjour_name: None,
            bonjour_type: None,
            bonjour_domain: None,
            application_service_name: Some(String::from_str(application_service_name)),
        }
    }

    /// The Bonjour instance name, if one was given.
    pub fn service_name(&self) -> (s: Option<&str>)
        ensures
            optional_str_view(s) == self@.0,
    {
        borrowed(&self.bonjour_name)
    }

    /// The Bonjour service type, if this is a Bonjour advertisement.
    pub fn service_type(&self) -> (s: Option<&str>)
        ensures
            optional_str_view(s) == self@.1,
    {
        borrowed(&self.bonjour_type)
    }

    /// The Bonjour domain, if one was given.
    pub fn domain(&self) -> (s: Option<&str>)
        ensures
            optional_str_view(s) == self@.2,
    {
        borrowed(&self.bonjour_domain)
    }

    /// The application-service name recorded at creation, if any.
    pub fn application_service_name(&self) -> (s: Option<&str>)
        ensures
            optional_str_view(s) == self@.3,
    {
        borrowed(&self.application_service_name)
    }
}

/// How an advertisement is started: directly as a Bonjour service from its
/// NUL-terminated type, name and domain, or from the descriptor object.
#[derive(Debug, Clone, PartialEq, Eq)]
pub enum AdvertiseRoute {
    Bonjour { service_type: Vec<u8>, service_name: Vec<u8>, domain: Option<Vec<u8>> },
    Descriptor,
}

/// The view of an optional byte vector.
pub open spec fn optional_bytes_view(v: Option<Vec<u8>>) -> Option<Seq<u8>> {
    match v {
        Some(b) => Some(b@),
        None => None,
    }
}

/// The route for an advertisement with the recorded Bonjour name, type and
/// domain (as bytes): when both the type and the name are known, the service
/// is started directly, and the type, then the name, then the domain must be
/// free of NUL bytes; otherwise the descriptor object is used.
pub open spec fn advertise_route_outcome(
    name: Option<Seq<u8>>,
    service_type: Option<Seq<u8>>,
    domain: Option<Seq<u8>>,
    r: Result<AdvertiseRoute, NetworkError>,
) -> bool {
    match (service_type, name) {
        (Some(t), Some(n)) => {
            if has_nul(t) {
                r matches Err(e) && c_string_outcome(t, "service_type"@, Err(e))
            } else if has_nul(n) {
                r matches Err(e) && c_string_outcome(n, "service_name"@, Err(e))
            } else {
                match domain {
                    Some(d) if has_nul(d) => r matches Err(e) && c_string_outcome(d, "domain"@, Err(e)),
                    _ => r matches Ok(AdvertiseRoute::Bonjour { service_type: tb, service_name: nb, domain: db })
                        && tb@ == t.push(0u8) && nb@ == n.push(0u8)
                        && optional_bytes_view(db) == (match domain {
                            Some(d) => Some(d.push(0u8)),
                            None => None,
                        }),
                }
            }
        },
        _ => r == Ok::<AdvertiseRoute, NetworkError>(AdvertiseRoute::Descriptor),
    }
}

/// The route for an advertisement whose recorded Bonjour name, type and
/// domain are given.
pub fn advertise_route(service_name: Option<&str>, service_type: Option<&str>, domain: Option<&str>) -> (r: Result<AdvertiseRoute, NetworkError>)
    ensures
        advertise_route_outcome(optional_str_bytes(service_name), optional_str_bytes(service_type), optional_str_bytes(domain), r),
{
    match (service_type, service_name) {
        (Some(t), Some(n)) => {
            let service_type = match c_string_bytes(t, "service_type") {
                Ok(b) => b,
                Err(e) => return Err(e),
            };
            let service_name = match c_string_bytes(n, "service_name") {
                Ok(b) => b,
                Err(e) => return Err(e),
            };
            let domain = match optional_c_string(domain, "domain") {
                Ok(d) => d,
                Err(e) => return Err(e),
            };
            Ok(AdvertiseRoute::Bonjour { service_type, service_name, domain })
        },
        _ => Ok(AdvertiseRoute::Descriptor),
    }
}

/// An optional byte string with a terminating zero added.
pub open spec fn optional_terminated(v: Option<Seq<u8>>) -> Option<Seq<u8>> {
    match v {
        Some(b) => Some(b.push(0u8)),
        None => None,
    }
}

/// Whether an optional byte string is present and holds a zero byte.
pub open spec fn optional_has_nul(v: Option<Seq<u8>>) -> bool {
    match v {
        Some(b) => has_nul(b),
        None => false,
    }
}

/// The outcome of checking the arguments of a Bonjour advertise descriptor:
/// the service type, then the name, then the domain must be free of NUL
/// bytes; the first that is not is reported under its own name. Otherwise
/// they are handed over NUL-terminated, an absent name or domain staying
/// absent.
pub open spec fn bonjour_arguments_outcome(
    name: Option<Seq<u8>>,
    service_type: Seq<u8>,
    domain: Option<Seq<u8>>,
    r: Result<(Vec<u8>, Option<Vec<u8>>, Option<Vec<u8>>), NetworkError>,
) -> bool {
    if has_nul(service_type) {
        r matches Err(e) && c_string_outcome(service_type, "service_type"@, Err(e))
    } else if optional_has_nul(name) {
        r matches Err(e) && c_string_outcome(name->0, "name"@, Err(e))
    } else if optional_has_nul(domain) {
        r matches Err(e) && c_string_outcome(domain->0, "domain"@, Err(e))
    } else {
        r matches Ok((t, n, d)) && t@ == service_type.push(0u8)
            && optional_bytes_view(n) == optional_terminated(name)
            && optional_bytes_view(d) == optional_terminated(domain)
    }
}

/// The NUL-terminated service type, name and domain of a Bonjour advertise
/// descriptor, checked in that order.
pub fn bonjour_arguments(name: Option<&str>, service_type: &str, domain: Option<&str>) -> (r: Result<
    (Vec<u8>, Option<Vec<u8>>, Option<Vec<u8>>),
    NetworkError,
>)
    ensures
        bonjour_arguments_outcome(optional_str_bytes(name), service_type.spec_bytes(), optional_str_bytes(domain), r),
{
    let service_type = match c_string_bytes(service_type, "service_type") {
        Ok(b) => b,
        Err(e) => return Err(e),
    };
    let name = match optional_c_string(name, "name") {
        Ok(n) => n,
        Err(e) => return Err(e),
    };
    let domain = match optional_c_string(domain, "domain") {
        Ok(d) => d,
        Err(e) => return Err(e),
    };
    Ok((service_type, name, domain))
}

} // verus!
