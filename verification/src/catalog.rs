//! The package-catalog client: building the query for a Java build matching
//! the host platform and major version, and reading the catalog's JSON
//! answer. The HTTP exchange itself runs at the boundary; this module
//! computes the request URL and interprets the response body.

use vstd::prelude::*;
use crate::config::AZUL_API_BASE_URL;
use crate::errors::ProvisionError;
use crate::platform::{arch_name, get_system_arch, get_system_os, os_name, TargetArch, TargetOs};
use crate::strings::{append_chars, append_str_chars, chars_to_string, dec_rep_signed, i64_to_chars};

verus! {

/// A downloadable Java build offered by the catalog.
#[derive(Debug, Clone, PartialEq, Eq)]
pub struct JavaPackage {
    /// Where to fetch the build's archive.
    pub download_url: String,
    /// Name of the build.
    pub name: String,
}

/// The catalog query for a major version on a platform.
pub open spec fn catalog_url_chars(java_version: int, arch: TargetArch, os: TargetOs) -> Seq<
    char,
> {
    AZUL_API_BASE_URL@ + "?arch="@ + arch_name(arch) + "&java_version="@ + dec_rep_signed(
        java_version,
    ) + "&os="@ + os_name(os)
        + "&archive_type=zip&javafx_bundled=false&java_package_type=jre&page_size=1"@
}

/// Builds the catalog query URL. Fails exactly on an unsupported operating
/// system.
pub fn build_catalog_url(java_version: i32, arch: TargetArch, os: TargetOs) -> (r: Result<
    String,
    ProvisionError,
>)
    ensures
        r is Ok <==> !(os is Other),
        r matches Ok(u) ==> u@ == catalog_url_chars(java_version as int, arch, os),
        r matches Err(e) ==> e == ProvisionError::PlatformUnsupported,
{
    let os_str = match get_system_os(os) {
        Ok(s) => s,
        Err(e) => {
            return Err(e);
        },
    };
    let arch_str = get_system_arch(arch);
    let mut v: Vec<char> = Vec::new();
    append_str_chars(&mut v, AZUL_API_BASE_URL);
    append_str_chars(&mut v, "?arch=");
    append_str_chars(&mut v, arch_str);
    append_str_chars(&mut v, "&java_version=");
    let digits = i64_to_chars(java_version as i64);
    append_chars(&mut v, &digits);
    append_str_chars(&mut v, "&os=");
    append_str_chars(&mut v, os_str);
    append_str_chars(&mut v, "&archive_type=zip&javafx_bundled=false&java_package_type=jre&page_size=1");
    Ok(chars_to_string(&v))
}

#[verifier::external_type_specification]
#[verifier::external_body]
pub struct ExValue(serde_json::Value);

/// What a JSON string value holds; `None` of any other value.
pub uninterp spec fn json_str(v: serde_json::Value) -> Option<Seq<char>>;

/// The two catalog fields of one array element: the string contents of its
/// `download_url` and `name` object fields, `None` for a field that is
/// missing or no string.
pub uninterp spec fn element_fields(v: serde_json::Value) -> (
    Option<Seq<char>>,
    Option<Seq<char>>,
);

/// The catalog reading of a JSON document: `None` when it is no array,
/// otherwise the two catalog fields of each element, in order.
pub uninterp spec fn json_doc_fields(v: serde_json::Value) -> Option<
    Seq<(Option<Seq<char>>, Option<Seq<char>>)>,
>;

/// The catalog reading of a text: `None` when it does not parse as JSON or
/// parses to something other than an array, otherwise the two catalog
/// fields of each element, in order.
pub uninterp spec fn catalog_doc(text: Seq<char>) -> Option<
    Seq<(Option<Seq<char>>, Option<Seq<char>>)>,
>;

/// Relies on `serde_json::from_str::<serde_json::Value>`: parses a JSON
/// document, or fails on malformed text; the parse depends on the text
/// alone.
#[verifier::external_body]
fn parse_json(text: &str) -> (r: Option<serde_json::Value>)
    ensures
        r is None ==> catalog_doc(text@) is None,
        r matches Some(v) ==> json_doc_fields(v) == catalog_doc(text@),
{
    match serde_json::from_str::<serde_json::Value>(text) {
        Ok(v) => Some(v),
        Err(_) => None,
    }
}

/// Relies on `serde_json::Value::as_array`: the document's elements, in
/// order, exactly when it is an array.
#[verifier::external_body]
fn json_as_array(v: &serde_json::Value) -> (r: Option<&Vec<serde_json::Value>>)
    ensures
        r is Some <==> json_doc_fields(*v) is Some,
        r matches Some(items) ==> ({
            let fields = json_doc_fields(*v).unwrap();
            &&& items@.len() == fields.len()
            &&& forall|i: int|
                0 <= i < fields.len() ==> element_fields(#[trigger] items@[i]) == fields[i]
        }),
{
    v.as_array()
}

/// Relies on `serde_json::Value::get`: the value filed under an object key,
/// `None` when the document is no object or has no such key.
#[verifier::external_body]
fn json_get_field<'a>(v: &'a serde_json::Value, key: &str) -> (r: Option<&'a serde_json::Value>)
    ensures
        key@ == "download_url"@ ==> (match r {
            Option::None => element_fields(*v).0 is None,
            Option::Some(f) => element_fields(*v).0 == json_str(*f),
        }),
        key@ == "name"@ ==> (match r {
            Option::None => element_fields(*v).1 is None,
            Option::Some(f) => element_fields(*v).1 == json_str(*f),
        }),
{
    v.get(key)
}

/// Relies on `serde_json::Value::as_str`: the text of a JSON string value,
/// `None` of any other value.
#[verifier::external_body]
fn json_as_str(v: &serde_json::Value) -> (r: Option<&str>)
    ensures
        r is Some <==> json_str(*v) is Some,
        r matches Some(s) ==> json_str(*v) == Some(s@),
{
    v.as_str()
}

/// Whether every element of a catalog reading carries both fields.
pub open spec fn fields_complete(fields: Seq<(Option<Seq<char>>, Option<Seq<char>>)>) -> bool {
    forall|i: int|
        0 <= i < fields.len() ==> (#[trigger] fields[i]).0 is Some && fields[i].1 is Some
}

/// One catalog entry, from the two fields the pipeline reads. Succeeds
/// exactly when both fields were present as strings; the package carries
/// them verbatim.
pub fn package_from_fields(download_url: Option<&str>, name: Option<&str>) -> (r: Result<
    JavaPackage,
    ProvisionError,
>)
    ensures
        r is Ok <==> (download_url is Some && name is Some),
        r matches Ok(p) ==> p.download_url@ == download_url.unwrap()@ && p.name@
            == name.unwrap()@,
        r matches Err(e) ==> e == ProvisionError::CatalogParseError,
{
    match (download_url, name) {
        (Some(u), Some(n)) => Ok(JavaPackage { download_url: u.to_owned(), name: n.to_owned() }),
        _ => Err(ProvisionError::CatalogParseError),
    }
}

/// Reads the catalog's response body: a JSON array of objects, each with a
/// `download_url` and a `name` string. Succeeds exactly when the body reads
/// as such an array, yielding one package per element in order, fields
/// verbatim; any malformed body — text that does not parse, a document that
/// is no array, an element missing either field — fails with
/// [`ProvisionError::CatalogParseError`]. An empty array is not an error:
/// whether "no package" is fatal is the caller's decision.
pub fn parse_catalog_response(text: &str) -> (r: Result<Vec<JavaPackage>, ProvisionError>)
    ensures
        r is Ok <==> (catalog_doc(text@) is Some && fields_complete(catalog_doc(text@).unwrap())),
        r matches Ok(ps) ==> ({
            let fields = catalog_doc(text@).unwrap();
            &&& ps@.len() == fields.len()
            &&& forall|i: int|
                0 <= i < fields.len() ==> (#[trigger] ps@[i]).download_url@
                    == fields[i].0.unwrap() && ps@[i].name@ == fields[i].1.unwrap()
        }),
        r matches Err(e) ==> e == ProvisionError::CatalogParseError,
{
    let doc = match parse_json(text) {
        Some(d) => d,
        None => {
            return Err(ProvisionError::CatalogParseError);
        },
    };
    let items = match json_as_array(&doc) {
        Some(a) => a,
        None => {
            return Err(ProvisionError::CatalogParseError);
        },
    };
    let ghost fields = catalog_doc(text@).unwrap();
    let mut packages: Vec<JavaPackage> = Vec::new();
    let n = items.len();
    let mut i: usize = 0;
    while i < n
        invariant
            i <= n,
            n == items@.len(),
            catalog_doc(text@) is Some,
            fields == catalog_doc(text@).unwrap(),
            fields.len() == n,
            forall|j: int|
                0 <= j < n ==> element_fields(#[trigger] items@[j]) == fields[j],
            packages@.len() == i,
            forall|j: int|
                0 <= j < i ==> (#[trigger] fields[j]).0 is Some && fields[j].1 is Some,
            forall|j: int|
                0 <= j < i ==> (#[trigger] packages@[j]).download_url@ == fields[j].0.unwrap()
                    && packages@[j].name@ == fields[j].1.unwrap(),
        decreases n - i,
    {
        let url_field = json_get_field(&items[i], "download_url");
        let url_str = match url_field {
            Some(f) => json_as_str(f),
            None => None,
        };
        let name_field = json_get_field(&items[i], "name");
        let name_str = match name_field {
            Some(f) => json_as_str(f),
            None => None,
        };
        proof {
            assert(element_fields(items@[i as int]) == fields[i as int]);
        }
        match package_from_fields(url_str, name_str) {
            Ok(p) => packages.push(p),
            Err(e) => {
                assert(!fields_complete(fields));
                return Err(e);
            },
        }
        i = i + 1;
    }
    assert(fields_complete(fields));
    Ok(packages)
}

/// Picks the build to install: the first offered package. Fails with
/// [`ProvisionError::NoPackageFound`] exactly when the catalog offered none.
pub fn select_package(packages: &Vec<JavaPackage>) -> (r: Result<JavaPackage, ProvisionError>)
    ensures
        r is Ok <==> packages@.len() > 0,
        r matches Ok(p) ==> p == packages@[0],
        r matches Err(e) ==> e == ProvisionError::NoPackageFound,
{
    if packages.len() == 0 {
        Err(ProvisionError::NoPackageFound)
    } else {
        Ok(
            JavaPackage {
                download_url: packages[0].download_url.clone(),
                name: packages[0].name.clone(),
            },
        )
    }
}

} // verus!
