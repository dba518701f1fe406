//! The atom cache: the small closed set of interned protocol strings the
//! tool needs, each resolved to its numeric handle at most once per
//! connection.
//!
//! The cache maps each name to an optional-until-resolved handle. It starts
//! empty; an entry fills in the first time the name is used — one intern
//! round trip, performed by the unverified driver — and is immutable
//! afterward, so a second use of the same name costs no round trip.

use vstd::prelude::*;

verus! {

/// The protocol strings the tool interns, by role.
#[derive(Clone, Copy, Debug, PartialEq, Eq, Structural)]
pub enum AtomName {
    /// The root property enumerating the top-level client windows.
    ClientList,
    /// The marker type of UTF-8 text properties.
    Utf8String,
    /// The property holding a window's display name.
    WindowName,
    /// The clipboard selection.
    Clipboard,
    /// The reserved "which formats do you support" query selection.
    Targets,
}

/// The string the server interns for a name.
pub open spec fn spec_protocol_string(name: AtomName) -> Seq<char> {
    match name {
        AtomName::ClientList => "_NET_CLIENT_LIST"@,
        AtomName::Utf8String => "UTF8_STRING"@,
        AtomName::WindowName => "_NET_WM_NAME"@,
        AtomName::Clipboard => "CLIPBOARD"@,
        AtomName::Targets => "TARGETS"@,
    }
}

/// The string to hand the server when interning a name.
pub fn protocol_string(name: AtomName) -> (r: &'static str)
    ensures
        r@ == spec_protocol_string(name),
{
    match name {
        AtomName::ClientList => "_NET_CLIENT_LIST",
        AtomName::Utf8String => "UTF8_STRING",
        AtomName::WindowName => "_NET_WM_NAME",
        AtomName::Clipboard => "CLIPBOARD",
        AtomName::Targets => "TARGETS",
    }
}

/// The memoized handles, one optional slot per name.
///
/// Created empty at connection setup and dropped with the connection.
pub struct AtomCache {
    pub client_list: Option<u32>,
    pub utf8_string: Option<u32>,
    pub window_name: Option<u32>,
    pub clipboard: Option<u32>,
    pub targets: Option<u32>,
}

impl AtomCache {
    /// The slot a name resolves through.
    pub open spec fn entry(self, name: AtomName) -> Option<u32> {
        match name {
            AtomName::ClientList => self.client_list,
            AtomName::Utf8String => self.utf8_string,
            AtomName::WindowName => self.window_name,
            AtomName::Clipboard => self.clipboard,
            AtomName::Targets => self.targets,
        }
    }

    /// A cache with no name resolved yet.
    pub fn new() -> (r: AtomCache)
        ensures
            forall|name: AtomName| r.entry(name) is None,
    {
        AtomCache {
            client_list: None,
            utf8_string: None,
            window_name: None,
            clipboard: None,
            targets: None,
        }
    }

    /// The memoized handle of a name, if its one round trip already
    /// happened.
    pub fn lookup(&self, name: AtomName) -> (r: Option<u32>)
        ensures
            r == self.entry(name),
    {
        match name {
            AtomName::ClientList => self.client_list,
            AtomName::Utf8String => self.utf8_string,
            AtomName::WindowName => self.window_name,
            AtomName::Clipboard => self.clipboard,
            AtomName::Targets => self.targets,
        }
    }

    /// Memoize the handle the server returned for a name. Only an
    /// unresolved name may be stored: entries are immutable once filled,
    /// which is what makes repeated resolution return the identical handle
    /// with no further round trip.
    pub fn store(&mut self, name: AtomName, handle: u32)
        requires
            old(self).entry(name) is None,
        ensures
            final(self).entry(name) == Some(handle),
            forall|other: AtomName| other != name ==> final(self).entry(other) == old(self).entry(
                other,
            ),
    {
        match name {
            AtomName::ClientList => {
                self.client_list = Some(handle);
            },
            AtomName::Utf8String => {
                self.utf8_string = Some(handle);
            },
            AtomName::WindowName => {
                self.window_name = Some(handle);
            },
            AtomName::Clipboard => {
                self.clipboard = Some(handle);
            },
            AtomName::Targets => {
                self.targets = Some(handle);
            },
        }
    }
}

} // verus!
