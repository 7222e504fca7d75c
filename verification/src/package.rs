//! Package coordinates and the places they map to.

use vstd::prelude::*;
use vstd::string::*;
use crate::text::{decimal, decimal_digits};

verus! {

/// A package version: three numbers, written `major.minor.patch`.
#[derive(Debug, PartialEq, Eq)]
pub struct PackageVersion {
    pub major: u32,
    pub minor: u32,
    pub patch: u32,
}

/// Names one remote package: a namespace, a name and a version.
#[derive(Debug, PartialEq, Eq)]
pub struct PackageCoordinate {
    pub namespace: String,
    pub name: String,
    pub version: PackageVersion,
}

/// The mathematical value of a [`PackageCoordinate`].
pub struct CoordinateView {
    pub namespace: Seq<char>,
    pub name: Seq<char>,
    pub version: PackageVersion,
}

impl Clone for PackageVersion {
    fn clone(&self) -> (copy: Self)
        ensures
            copy == *self,
    {
        PackageVersion { major: self.major, minor: self.minor, patch: self.patch }
    }
}

impl Copy for PackageVersion {

}

impl View for PackageCoordinate {
    type V = CoordinateView;

    open spec fn view(&self) -> CoordinateView {
        CoordinateView { namespace: self.namespace@, name: self.name@, version: self.version }
    }
}

impl Clone for PackageCoordinate {
    fn clone(&self) -> (copy: Self)
        ensures
            copy@ == self@,
    {
        PackageCoordinate {
            namespace: self.namespace.clone(),
            name: self.name.clone(),
            version: self.version,
        }
    }
}

/// The text `major.minor.patch` of a version.
pub open spec fn version_text(v: PackageVersion) -> Seq<char> {
    decimal_digits(v.major as nat) + "."@ + decimal_digits(v.minor as nat) + "."@ + decimal_digits(
        v.patch as nat,
    )
}

/// The directory of a package below the cache root:
/// `<root>/<namespace>/<name>/<version>`.
pub open spec fn package_dir_text(root: Seq<char>, c: CoordinateView) -> Seq<char> {
    root + "/"@ + c.namespace + "/"@ + c.name + "/"@ + version_text(c.version)
}

/// The address of a package's archive in the registry:
/// `https://packages.typst.org/<namespace>/<name>-<version>.tar.gz`.
pub open spec fn package_url_text(c: CoordinateView) -> Seq<char> {
    "https://packages.typst.org/"@ + c.namespace + "/"@ + c.name + "-"@ + version_text(c.version)
        + ".tar.gz"@
}

impl PackageVersion {
    /// Writes the version as `major.minor.patch`.
    pub fn text(&self) -> (s: String)
        ensures
            s@ == version_text(*self),
    {
        let mut s = decimal(self.major as u128);
        s.append(".");
        s.append(decimal(self.minor as u128).as_str());
        s.append(".");
        s.append(decimal(self.patch as u128).as_str());
        s
    }
}

impl PackageCoordinate {
    /// Whether two coordinates name the same package.
    pub fn same(&self, other: &PackageCoordinate) -> (eq: bool)
        ensures
            eq == (self@ == other@),
    {
        self.namespace == other.namespace && self.name == other.name && self.version.major
            == other.version.major && self.version.minor == other.version.minor
            && self.version.patch == other.version.patch
    }

    /// The directory in which this package is kept below `cache_root`.
    pub fn directory(&self, cache_root: &str) -> (dir: String)
        ensures
            dir@ == package_dir_text(cache_root@, self@),
    {
        let mut dir = String::from_str(cache_root);
        dir.append("/");
        dir.append(self.namespace.as_str());
        dir.append("/");
        dir.append(self.name.as_str());
        dir.append("/");
        dir.append(self.version.text().as_str());
        dir
    }

    /// The address from which this package's archive is downloaded.
    pub fn url(&self) -> (url: String)
        ensures
            url@ == package_url_text(self@),
    {
        let mut url = String::from_str("https://packages.typst.org/");
        url.append(self.namespace.as_str());
        url.append("/");
        url.append(self.name.as_str());
        url.append("-");
        url.append(self.version.text().as_str());
        url.append(".tar.gz");
        url
    }
}

} // verus!
