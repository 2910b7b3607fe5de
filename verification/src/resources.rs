//! Files that the application unpacks next to its data.

use vstd::prelude::*;
use crate::text::{lowercase, to_lowercase};

verus! {

/// Where a resource is kept: among the server icons, or with the documents.
#[derive(Debug, Clone, Copy, PartialEq, Eq, Structural)]
pub enum ResourceType {
    ServerIcon,
    Document,
}

/// A file shipped with the application.
#[derive(Debug, Clone, Copy, PartialEq, Eq, Structural)]
pub enum Resource {
    MikupushSvg,
    ThirdPartyLicenses,
}

/// The name of the file a resource is unpacked to.
pub open spec fn resource_file_name(r: Resource) -> Seq<char> {
    match r {
        Resource::MikupushSvg => "mikupush.svg"@,
        Resource::ThirdPartyLicenses => "THIRD_PARTY_LICENSES.html"@,
    }
}

/// The resource that a name stands for, ignoring case.
pub open spec fn resource_from_name(name: Seq<char>) -> Option<Resource> {
    let l = lowercase(name);
    if l == "mikupush_svg"@ {
        Some(Resource::MikupushSvg)
    } else if l == "third_party_licenses"@ {
        Some(Resource::ThirdPartyLicenses)
    } else {
        None
    }
}

impl Resource {
    /// The name of the file this resource is unpacked to.
    pub fn file_name(&self) -> (r: String)
        ensures
            r@ == resource_file_name(*self),
    {
        match self {
            Resource::MikupushSvg => String::from_str("mikupush.svg"),
            Resource::ThirdPartyLicenses => String::from_str("THIRD_PARTY_LICENSES.html"),
        }
    }

    /// Where this resource is kept: the logo with the server icons, the
    /// licenses with the documents.
    pub fn resource_type(&self) -> (t: ResourceType)
        ensures
            t == match *self {
                Resource::MikupushSvg => ResourceType::ServerIcon,
                Resource::ThirdPartyLicenses => ResourceType::Document,
            },
    {
        match self {
            Resource::MikupushSvg => ResourceType::ServerIcon,
            Resource::ThirdPartyLicenses => ResourceType::Document,
        }
    }

    /// The resource named `mikupush_svg` or `third_party_licenses`, in any
    /// case.
    pub fn from_string(string: String) -> (r: Option<Resource>)
        ensures
            r == resource_from_name(string@),
    {
        let l = to_lowercase(string.as_str());
        if l == String::from_str("mikupush_svg") {
            Some(Resource::MikupushSvg)
        } else if l == String::from_str("third_party_licenses") {
            Some(Resource::ThirdPartyLicenses)
        } else {
            None
        }
    }
}

} // verus!
