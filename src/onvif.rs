//! Validation of a camera's address and derivation of its device-management
//! service endpoint.

use vstd::prelude::*;
use vstd::string::StrSliceExecFns;
use crate::address::{joined_url, Url};

verus! {

/// The path of the device-management service, relative to a camera's address.
pub const DEVICE_SERVICE_PATH: &'static str = "onvif/device_service";

/// Why an address was rejected.
#[derive(Debug, Clone, Copy, PartialEq, Eq, Structural)]
pub enum ParseError {
    /// The scheme is not `http` or `https`, or the URL cannot serve as a base.
    InvalidSchema,
}

impl ParseError {
    /// The message shown for this error.
    pub fn message(&self) -> (r: &'static str)
        ensures
            r@ == "schema should be `http` or `https`"@,
    {
        "schema should be `http` or `https`"
    }
}

/// `i` is where the scheme of the serialization `s` ends: the first ':'.
/// A URL's serialization starts with its scheme, which holds no ':', and the
/// ':' that ends it; `url::Url::scheme` and `url::Url::cannot_be_a_base` read
/// the same position.
pub open spec fn is_scheme_end(s: Seq<char>, i: int) -> bool {
    &&& 0 <= i < s.len()
    &&& s[i] == ':'
    &&& forall|j: int| 0 <= j < i ==> s[j] != ':'
}

/// The URL serialized as `s` can serve as a base for relative references:
/// its scheme and ':' are followed by '/'.
pub open spec fn can_be_a_base(s: Seq<char>) -> bool {
    exists|i: int| is_scheme_end(s, i) && i + 1 < s.len() && s[i + 1] == '/'
}

/// The scheme of the URL serialized as `s` is `scheme`.
pub open spec fn has_scheme(s: Seq<char>, scheme: Seq<char>) -> bool {
    is_scheme_end(s, scheme.len() as int) && s.take(scheme.len() as int) == scheme
}

/// The scheme `http`.
pub open spec fn http_scheme() -> Seq<char> {
    seq!['h', 't', 't', 'p']
}

/// The scheme `https`.
pub open spec fn https_scheme() -> Seq<char> {
    seq!['h', 't', 't', 'p', 's']
}

/// The URL serialized as `s` may address a camera: it can serve as a base and
/// its scheme is `http` or `https`.
pub open spec fn is_device_address(s: Seq<char>) -> bool {
    &&& can_be_a_base(s)
    &&& (has_scheme(s, http_scheme()) || has_scheme(s, https_scheme()))
}

/// Finds the end of the scheme: the index of the first ':', if any.
fn scheme_end(s: &str) -> (r: Option<usize>)
    ensures
        r matches Some(i) ==> is_scheme_end(s@, i as int),
        r is None ==> forall|j: int| 0 <= j < s@.len() ==> s@[j] != ':',
{
    let n = s.unicode_len();
    let mut i: usize = 0;
    while i < n
        invariant
            n == s@.len(),
            i <= n,
            forall|j: int| 0 <= j < i ==> s@[j] != ':',
        decreases n - i,
    {
        if s.get_char(i) == ':' {
            return Some(i);
        }
        i = i + 1;
    }
    None
}

/// `s` begins with `prefix` followed by ':' (and with no earlier ':').
fn scheme_matches(s: &str, end: usize, prefix: &str) -> (r: bool)
    requires
        is_scheme_end(s@, end as int),
    ensures
        r == has_scheme(s@, prefix@),
{
    let n = prefix.unicode_len();
    if n != end {
        return false;
    }
    let mut i: usize = 0;
    while i < n
        invariant
            n == prefix@.len(),
            n == end,
            end < s@.len(),
            i <= n,
            forall|j: int| 0 <= j < i ==> s@[j] == prefix@[j],
        decreases n - i,
    {
        if s.get_char(i) != prefix.get_char(i) {
            assert(s@.take(n as int)[i as int] != prefix@[i as int]);
            return false;
        }
        i = i + 1;
    }
    assert(s@.take(n as int) =~= prefix@);
    true
}

/// A validated camera address.
#[derive(Debug, PartialEq, Eq)]
pub struct Device {
    url: Url,
}

impl View for Device {
    type V = Seq<char>;

    closed spec fn view(&self) -> Seq<char> {
        self.url@
    }
}

impl Device {
    #[verifier::type_invariant]
    spec fn inv(self) -> bool {
        is_device_address(self.url@)
    }

    /// Accepts `url` as a camera's address when it can serve as a base and
    /// its scheme is `http` or `https`; the device keeps `url` unchanged.
    pub fn from(url: Url) -> (r: Result<Device, ParseError>)
        ensures
            r is Ok <==> is_device_address(url@),
            r matches Ok(d) ==> d@ == url@,
            r matches Err(e) ==> e == ParseError::InvalidSchema,
    {
        let s = url.as_str();
        let end = match scheme_end(s) {
            Some(i) => i,
            None => {
                return Err(ParseError::InvalidSchema);
            },
        };
        let n = s.unicode_len();
        if end + 1 >= n || s.get_char(end + 1) != '/' {
            proof {
                assert forall|i: int| is_scheme_end(url@, i) implies i == end by {
                    if i < end {
                        assert(url@[i] != ':');
                    } else if i > end {
                        assert(url@[end as int] != ':');
                    }
                }
            }
            return Err(ParseError::InvalidSchema);
        }
        let http = scheme_matches(s, end, "http");
        let https = scheme_matches(s, end, "https");
        proof {
            reveal_strlit("http");
            reveal_strlit("https");
            assert("http"@ =~= http_scheme());
            assert("https"@ =~= https_scheme());
        }
        if !http && !https {
            return Err(ParseError::InvalidSchema);
        }
        Ok(Device { url })
    }

    /// The device-management service endpoint: the service path joined onto
    /// the device's address. On an `http` or `https` base the join does not
    /// fail; a caller that cannot show it uses `devicemgmt_url`.
    pub fn get_devicemgmt_url(&self) -> (r: Url)
        requires
            joined_url(self@, DEVICE_SERVICE_PATH@) is Some,
        ensures
            r@ == joined_url(self@, DEVICE_SERVICE_PATH@)->0,
    {
        self.url.join(DEVICE_SERVICE_PATH).unwrap()
    }

    /// The device-management service endpoint, or `None` where the join
    /// fails.
    pub fn devicemgmt_url(&self) -> (r: Option<Url>)
        ensures
            r is Some <==> joined_url(self@, DEVICE_SERVICE_PATH@) is Some,
            r matches Some(u) ==> u@ == joined_url(self@, DEVICE_SERVICE_PATH@)->0,
    {
        if self.url.join(DEVICE_SERVICE_PATH).is_some() {
            Some(self.get_devicemgmt_url())
        } else {
            None
        }
    }

    /// The address of this device, which may address a camera.
    pub fn url(&self) -> (r: &Url)
        ensures
            r@ == self@,
            is_device_address(r@),
    {
        proof {
            use_type_invariant(self);
        }
        &self.url
    }
}

} // verus!
