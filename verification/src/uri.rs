//! Libvirt connection URIs.
use vstd::prelude::*;
use crate::error::VirtError;
use crate::text::{chars_of, find_chars, find_spec, owned, push_str, str_eq, string_of_chars, sub_chars};

verus! {

/// A connection URI split into the parts the application uses.
#[derive(Debug, Clone)]
pub struct LibvirtUri {
    pub raw: String,
    pub driver: String,
    pub transport: String,
    pub hostname: String,
    pub port: Option<u16>,
    pub path: String,
    pub username: Option<String>,
}

/// The parts of a URL as the `url` crate reads them: scheme, host, port,
/// path and user name (empty when absent).
#[derive(Debug, Clone)]
pub struct UrlParts {
    pub scheme: String,
    pub host: Option<String>,
    pub port: Option<u16>,
    pub path: String,
    pub username: String,
}

/// The parts of a URL as plain values.
pub type UrlPartsModel = (Seq<char>, Option<Seq<char>>, Option<u16>, Seq<char>, Seq<char>);

/// The parts as plain values.
pub open spec fn url_parts_model(p: UrlParts) -> UrlPartsModel {
    (
        p.scheme@,
        match p.host {
            Some(h) => Some(h@),
            None => None,
        },
        p.port,
        p.path@,
        p.username@,
    )
}

/// What `url::Url::parse` makes of a text: its parts, or the text of the
/// parse error.
pub uninterp spec fn parsed_url(text: Seq<char>) -> Result<UrlPartsModel, Seq<char>>;

/// `url::Url::parse`, read through `scheme`, `host_str`, `port`, `path` and
/// `username`; an error is given by its message.  The result is named
/// `parsed_url`: the parse is a function of the text alone.
#[verifier::external_body]
fn parse_url(text: &str) -> (r: Result<UrlParts, String>)
    ensures
        match r {
            Ok(p) => parsed_url(text@) == Ok::<UrlPartsModel, Seq<char>>(url_parts_model(p)),
            Err(m) => parsed_url(text@) == Err::<UrlPartsModel, Seq<char>>(m@),
        },
{
    match url::Url::parse(text) {
        Ok(u) => Ok(UrlParts {
            scheme: u.scheme().to_string(),
            host: u.host_str().map(|h| h.to_string()),
            port: u.port(),
            path: u.path().to_string(),
            username: u.username().to_string(),
        }),
        Err(e) => Err(format!("{e}")),
    }
}

/// The driver and transport of a scheme: the text before and after the
/// first `+`, or the whole scheme and no transport.
pub open spec fn split_scheme(scheme: Seq<char>) -> (Seq<char>, Seq<char>) {
    match find_spec(scheme, seq!['+']) {
        Some(i) => (scheme.take(i as int), scheme.skip(i as int + 1)),
        None => (scheme, Seq::<char>::empty()),
    }
}

/// The URI that `parse` builds from the text and the parts read from it.
pub open spec fn uri_of_parts(raw: Seq<char>, p: UrlPartsModel, u: LibvirtUri) -> bool {
    &&& u.raw@ == raw
    &&& u.driver@ == split_scheme(p.0).0
    &&& u.transport@ == split_scheme(p.0).1
    &&& u.hostname@ == match p.1 {
        Some(h) => h,
        None => Seq::<char>::empty(),
    }
    &&& u.port == p.2
    &&& u.path@ == p.3
    &&& match u.username {
        Some(n) => p.4.len() > 0 && n@ == p.4,
        None => p.4.len() == 0,
    }
}

/// The label of a connection's driver: QEMU (user session or system), Xen,
/// LXC, VirtualBox, or the driver name itself.
pub open spec fn driver_label(driver: Seq<char>, path: Seq<char>) -> Seq<char> {
    if driver == "qemu"@ && path == "/session"@ {
        "QEMU/KVM user session"@
    } else if driver == "qemu"@ {
        "QEMU/KVM"@
    } else if driver == "xen"@ {
        "Xen"@
    } else if driver == "lxc"@ {
        "LXC"@
    } else if driver == "vbox"@ {
        "VirtualBox"@
    } else {
        driver
    }
}

impl LibvirtUri {
    /// The URI made of `uri` and the parts the `url` crate read from it.
    pub fn from_url_parts(uri: &str, parts: UrlParts) -> (r: Self)
        ensures
            uri_of_parts(uri@, url_parts_model(parts), r),
    {
        let sv = chars_of(parts.scheme.as_str());
        let plus = chars_of("+");
        proof {
            reveal_strlit("+");
            assert(plus@ == seq!['+']);
        }
        let (driver, transport) = match find_chars(&sv, &plus) {
            Some(i) => {
                let d = sub_chars(&sv, 0, i);
                assert(crate::text::occurs_at(sv@, plus@, i as int));
                assert(plus@.len() == 1);
                assert(i + 1 <= sv@.len());
                assert(i < sv.len());
                let j: usize = i + 1;
                let t = sub_chars(&sv, j, sv.len());
                assert(d@ == sv@.take(i as int));
                assert(t@ == sv@.skip(i + 1));
                (string_of_chars(&d), string_of_chars(&t))
            },
            None => (parts.scheme.clone(), String::new()),
        };
        let hostname = match &parts.host {
            Some(h) => h.clone(),
            None => String::new(),
        };
        let username = if parts.username.as_str().is_empty() {
            None
        } else {
            Some(parts.username.clone())
        };
        LibvirtUri {
            raw: owned(uri),
            driver,
            transport,
            hostname,
            port: parts.port,
            path: parts.path,
            username,
        }
    }

    /// Reads a connection URI; an unreadable URI is `InvalidUri` with the
    /// URI and the parser's message.
    pub fn parse(uri: &str) -> (r: Result<Self, VirtError>)
        ensures
            match parsed_url(uri@) {
                Ok(p) => r matches Ok(u) && uri_of_parts(uri@, p, u),
                Err(m) => r matches Err(VirtError::InvalidUri(msg)) && msg@ == uri@ + ": "@ + m,
            },
    {
        match parse_url(uri) {
            Ok(parts) => Ok(LibvirtUri::from_url_parts(uri, parts)),
            Err(m) => {
                let mut msg = owned(uri);
                push_str(&mut msg, ": ");
                push_str(&mut msg, m.as_str());
                Err(VirtError::InvalidUri(msg))
            },
        }
    }

    pub fn is_remote(&self) -> (r: bool)
        ensures
            r == (self.hostname@.len() > 0),
    {
        !self.hostname.as_str().is_empty()
    }

    pub fn is_session(&self) -> (r: bool)
        ensures
            r == (self.path@ == "/session"@),
    {
        str_eq(self.path.as_str(), "/session")
    }

    /// `HOST (LABEL)` for a remote connection, the driver label alone for a
    /// local one.
    pub open spec fn display_name_spec(&self) -> Seq<char> {
        if self.hostname@.len() > 0 {
            self.hostname@ + " ("@ + driver_label(self.driver@, self.path@) + ")"@
        } else {
            driver_label(self.driver@, self.path@)
        }
    }

    pub fn display_name(&self) -> (r: String)
        ensures
            r@ == self.display_name_spec(),
    {
        let d = self.driver.as_str();
        let label: &str = if str_eq(d, "qemu") && str_eq(self.path.as_str(), "/session") {
            "QEMU/KVM user session"
        } else if str_eq(d, "qemu") {
            "QEMU/KVM"
        } else if str_eq(d, "xen") {
            "Xen"
        } else if str_eq(d, "lxc") {
            "LXC"
        } else if str_eq(d, "vbox") {
            "VirtualBox"
        } else {
            d
        };
        if self.is_remote() {
            let mut r = self.hostname.clone();
            push_str(&mut r, " (");
            push_str(&mut r, label);
            push_str(&mut r, ")");
            r
        } else {
            owned(label)
        }
    }
}

} // verus!
