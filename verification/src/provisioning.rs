//! The provisioning of a machine with the server's help, as a session of
//! requests and guest calls.

use vstd::prelude::*;
use vstd::string::StringExecFns;
use base64::Engine;
use crate::adi::ProvisioningStartResult;
use crate::device::DeviceData;
use crate::runtime::{index_of_name, lemma_index_of_name_found, lemma_index_of_name_missing};
use crate::text::str_equal;

verus! {

/// `plist::Error`, carried through as an opaque value.
#[verifier::external_type_specification]
#[verifier::external_body]
pub struct ExPlistError(plist::Error);

/// `base64::DecodeError`, carried through as an opaque value.
#[verifier::external_type_specification]
#[verifier::external_body]
pub struct ExDecodeError(base64::DecodeError);

/// Where the server tells which address serves which purpose.
pub open spec fn lookup_url() -> Seq<char> {
    "https://gsa.apple.com/grandslam/GsService2/lookup"@
}

/// An entry of a dictionary inside a property list: its key and, where its
/// value is a string, the string.
#[derive(Debug)]
pub struct PlistField {
    pub key: String,
    pub text: Option<String>,
}

pub struct PlistFieldView {
    pub key: Seq<char>,
    pub text: Option<Seq<char>>,
}

impl View for PlistField {
    type V = PlistFieldView;

    open spec fn view(&self) -> PlistFieldView {
        PlistFieldView {
            key: self.key@,
            text: match self.text {
                Some(text) => Some(text@),
                None => None,
            },
        }
    }
}

pub open spec fn field_views(fields: Seq<PlistField>) -> Seq<PlistFieldView> {
    fields.map_values(|f: PlistField| f@)
}

/// What a property list holds under a key of its root.
#[derive(Debug)]
pub enum PlistEntry {
    Text(String),
    Dictionary(Vec<PlistField>),
    /// Anything that is neither a string nor a dictionary.
    Other,
}

pub enum PlistEntryView {
    Text(Seq<char>),
    Dictionary(Seq<PlistFieldView>),
    Other,
}

impl View for PlistEntry {
    type V = PlistEntryView;

    open spec fn view(&self) -> PlistEntryView {
        match self {
            PlistEntry::Text(text) => PlistEntryView::Text(text@),
            PlistEntry::Dictionary(fields) => PlistEntryView::Dictionary(field_views(fields@)),
            PlistEntry::Other => PlistEntryView::Other,
        }
    }
}

/// An entry of the root dictionary of a property list.
#[derive(Debug)]
pub struct PlistItem {
    pub key: String,
    pub value: PlistEntry,
}

pub struct PlistItemView {
    pub key: Seq<char>,
    pub value: PlistEntryView,
}

impl View for PlistItem {
    type V = PlistItemView;

    open spec fn view(&self) -> PlistItemView {
        PlistItemView { key: self.key@, value: self.value@ }
    }
}

pub open spec fn item_views(items: Seq<PlistItem>) -> Seq<PlistItemView> {
    items.map_values(|i: PlistItem| i@)
}

/// The root of a property list as the wrapper hands it over: its entries
/// where it is a dictionary.
pub open spec fn root_view(root: Option<Vec<PlistItem>>) -> Option<Seq<PlistItemView>> {
    match root {
        Some(items) => Some(item_views(items@)),
        None => None,
    }
}

/// What `plist::Value::from_reader_xml` makes of the bytes of a document:
/// `None` where it fails; else the entries of the root, two levels deep, where
/// the root is a dictionary, and `None` inside where it is not.
pub uninterp spec fn parsed_plist(bytes: Seq<u8>) -> Option<Option<Seq<PlistItemView>>>;

/// Calls `plist::Value::from_reader_xml` on the bytes and copies the first two
/// levels of the result: the entries of the root dictionary in their order,
/// each with its string, or with the entries of its dictionary, each of those
/// with its string where it is one. Fails exactly where the parser fails.
#[verifier::external_body]
pub(crate) fn plist_from_xml(bytes: &[u8]) -> (r: Result<Option<Vec<PlistItem>>, plist::Error>)
    ensures
        r is Ok <==> parsed_plist(bytes@) is Some,
        r matches Ok(root) ==> Some(root_view(root)) == parsed_plist(bytes@),
{
    let value = plist::Value::from_reader_xml(std::io::Cursor::new(bytes))?;
    Ok(value.as_dictionary().map(|root| root.iter().map(|(key, value)| PlistItem {
        key: key.clone(),
        value: match value {
            plist::Value::String(text) => PlistEntry::Text(text.clone()),
            plist::Value::Dictionary(inner) => PlistEntry::Dictionary(inner.iter().map(
                |(key, value)| PlistField { key: key.clone(), text: value.as_string().map(str::to_string) },
            ).collect()),
            _ => PlistEntry::Other,
        },
    }).collect()))
}

/// The bytes that the standard base64 alphabet with padding decodes a text
/// to, as `base64`'s `STANDARD.decode` does it; `None` where the text is no
/// such encoding.
pub uninterp spec fn base64_decoded(text: Seq<u8>) -> Option<Seq<u8>>;

/// The text that `base64`'s `STANDARD.encode` makes of bytes.
pub uninterp spec fn base64_encoded(bytes: Seq<u8>) -> Seq<char>;

/// Calls `decode` of `base64::engine::general_purpose::STANDARD`. The contract
/// names the result.
#[verifier::external_body]
pub(crate) fn base64_decode(text: &[u8]) -> (r: Result<Vec<u8>, base64::DecodeError>)
    ensures
        r is Ok <==> base64_decoded(text@) is Some,
        r matches Ok(bytes) ==> Some(bytes@) == base64_decoded(text@),
{
    base64::engine::general_purpose::STANDARD.decode(text)
}

/// Calls `encode` of `base64::engine::general_purpose::STANDARD`, which
/// panics where the length of the text would not fit a `usize`. The contract
/// names the result.
#[verifier::external_body]
pub(crate) fn base64_encode(bytes: &[u8]) -> (r: String)
    requires
        bytes@.len() <= usize::MAX / 2,
    ensures
        r@ == base64_encoded(bytes@),
{
    base64::engine::general_purpose::STANDARD.encode(bytes)
}

/// Why a provisioning stopped.
#[derive(Debug)]
pub enum ProvisioningError {
    /// A response is no property list.
    Plist(plist::Error),
    /// The root of a response is no dictionary.
    RootNotDictionary,
    /// The root of the lookup response is no dictionary.
    LookupRootNotDictionary,
    /// The lookup response has no dictionary of addresses.
    MissingUrls,
    /// The addresses lack the one of this name.
    MissingUrl(String),
    /// A response has no `Response` dictionary.
    MissingResponse,
    /// The `Response` dictionary lacks the field of this name.
    MissingField(String),
    /// The field of this name is no string.
    FieldNotString(String),
    /// A field is no base64 text.
    Base64(base64::DecodeError),
    /// The client's provisioning data is too long to be encoded.
    TooLong,
    /// The session was handed something it did not ask for.
    OutOfTurn,
}

pub enum ProvisioningErrorView {
    Plist,
    RootNotDictionary,
    LookupRootNotDictionary,
    MissingUrls,
    MissingUrl(Seq<char>),
    MissingResponse,
    MissingField(Seq<char>),
    FieldNotString(Seq<char>),
    Base64,
    TooLong,
    OutOfTurn,
}

impl View for ProvisioningError {
    type V = ProvisioningErrorView;

    open spec fn view(&self) -> ProvisioningErrorView {
        match self {
            ProvisioningError::Plist(_) => ProvisioningErrorView::Plist,
            ProvisioningError::RootNotDictionary => ProvisioningErrorView::RootNotDictionary,
            ProvisioningError::LookupRootNotDictionary => {
                ProvisioningErrorView::LookupRootNotDictionary
            },
            ProvisioningError::MissingUrls => ProvisioningErrorView::MissingUrls,
            ProvisioningError::MissingUrl(name) => ProvisioningErrorView::MissingUrl(name@),
            ProvisioningError::MissingResponse => ProvisioningErrorView::MissingResponse,
            ProvisioningError::MissingField(name) => ProvisioningErrorView::MissingField(name@),
            ProvisioningError::FieldNotString(name) => ProvisioningErrorView::FieldNotString(name@),
            ProvisioningError::Base64(_) => ProvisioningErrorView::Base64,
            ProvisioningError::TooLong => ProvisioningErrorView::TooLong,
            ProvisioningError::OutOfTurn => ProvisioningErrorView::OutOfTurn,
        }
    }
}

pub open spec fn item_keys(items: Seq<PlistItemView>) -> Seq<Seq<char>> {
    items.map_values(|i: PlistItemView| i.key)
}

pub open spec fn field_keys(fields: Seq<PlistFieldView>) -> Seq<Seq<char>> {
    fields.map_values(|f: PlistFieldView| f.key)
}

/// The fields of the dictionary that a root holds under a key, if it holds a
/// dictionary there.
pub open spec fn dictionary_at(items: Seq<PlistItemView>, key: Seq<char>) -> Option<
    Seq<PlistFieldView>,
> {
    match index_of_name(item_keys(items), key) {
        Some(i) => match items[i].value {
            PlistEntryView::Dictionary(fields) => Some(fields),
            _ => None,
        },
        None => None,
    }
}

/// The string that the `Response` dictionary of a parsed response holds under
/// a key, or why there is none.
pub open spec fn response_string(root: Option<Seq<PlistItemView>>, key: Seq<char>) -> Result<
    Seq<char>,
    ProvisioningErrorView,
> {
    match root {
        None => Err(ProvisioningErrorView::RootNotDictionary),
        Some(items) => match dictionary_at(items, "Response"@) {
            None => Err(ProvisioningErrorView::MissingResponse),
            Some(fields) => match index_of_name(field_keys(fields), key) {
                None => Err(ProvisioningErrorView::MissingField(key)),
                Some(i) => match fields[i].text {
                    None => Err(ProvisioningErrorView::FieldNotString(key)),
                    Some(text) => Ok(text),
                },
            },
        },
    }
}

/// Finds the dictionary under a key of the root.
fn find_dictionary<'a>(items: &'a Vec<PlistItem>, key: &str) -> (r: Option<&'a Vec<PlistField>>)
    ensures
        match dictionary_at(item_views(items@), key@) {
            Some(fields) => (r matches Some(found) && field_views(found@) == fields),
            None => r is None,
        },
{
    let ghost keys = item_keys(item_views(items@));
    let mut i: usize = 0;
    while i < items.len()
        invariant
            i <= items@.len(),
            keys == item_keys(item_views(items@)),
            keys.len() == items@.len(),
            forall|j: int| 0 <= j < i ==> keys[j] != key@,
        decreases items.len() - i,
    {
        assert(keys[i as int] == items@[i as int].key@);
        if str_equal(items[i].key.as_str(), key) {
            proof {
                lemma_index_of_name_found(keys, key@, i as int);
                assert(item_views(items@)[i as int] == items@[i as int]@);
            }
            return match &items[i].value {
                PlistEntry::Dictionary(fields) => Some(fields),
                _ => None,
            };
        }
        i = i + 1;
    }
    proof {
        lemma_index_of_name_missing(keys, key@);
    }
    None
}

/// Finds the field of a key in a dictionary.
fn find_field<'a>(fields: &'a Vec<PlistField>, key: &str) -> (r: Option<&'a PlistField>)
    ensures
        match index_of_name(field_keys(field_views(fields@)), key@) {
            Some(i) => (r matches Some(found) && found@ == field_views(fields@)[i]),
            None => r is None,
        },
{
    let ghost keys = field_keys(field_views(fields@));
    let mut i: usize = 0;
    while i < fields.len()
        invariant
            i <= fields@.len(),
            keys == field_keys(field_views(fields@)),
            keys.len() == fields@.len(),
            forall|j: int| 0 <= j < i ==> keys[j] != key@,
        decreases fields.len() - i,
    {
        assert(keys[i as int] == fields@[i as int].key@);
        if str_equal(fields[i].key.as_str(), key) {
            proof {
                lemma_index_of_name_found(keys, key@, i as int);
                assert(field_views(fields@)[i as int] == fields@[i as int]@);
            }
            return Some(&fields[i]);
        }
        i = i + 1;
    }
    proof {
        lemma_index_of_name_missing(keys, key@);
    }
    None
}

/// Reads a string out of the `Response` dictionary of a parsed response.
pub fn plist_get_string_in_response(root: &Option<Vec<PlistItem>>, key: &str) -> (r: Result<
    String,
    ProvisioningError,
>)
    ensures
        match response_string(root_view(*root), key@) {
            Ok(text) => (r matches Ok(found) && found@ == text),
            Err(failure) => (r matches Err(e) && e@ == failure),
        },
{
    let items = match root {
        Some(items) => items,
        None => {
            return Err(ProvisioningError::RootNotDictionary);
        },
    };
    let fields = match find_dictionary(items, "Response") {
        Some(fields) => fields,
        None => {
            return Err(ProvisioningError::MissingResponse);
        },
    };
    let field = match find_field(fields, key) {
        Some(field) => field,
        None => {
            return Err(ProvisioningError::MissingField(key.to_owned()));
        },
    };
    match &field.text {
        Some(text) => Ok(text.clone()),
        None => Err(ProvisioningError::FieldNotString(key.to_owned())),
    }
}

/// A named address of the server.
#[derive(Debug)]
pub struct UrlEntry {
    pub name: String,
    pub url: String,
}

pub struct UrlEntryView {
    pub name: Seq<char>,
    pub url: Seq<char>,
}

impl View for UrlEntry {
    type V = UrlEntryView;

    open spec fn view(&self) -> UrlEntryView {
        UrlEntryView { name: self.name@, url: self.url@ }
    }
}

pub open spec fn url_views(urls: Seq<UrlEntry>) -> Seq<UrlEntryView> {
    urls.map_values(|u: UrlEntry| u@)
}

pub open spec fn url_names(urls: Seq<UrlEntryView>) -> Seq<Seq<char>> {
    urls.map_values(|u: UrlEntryView| u.name)
}

/// The address of a name.
pub open spec fn url_of(urls: Seq<UrlEntryView>, name: Seq<char>) -> Option<Seq<char>> {
    match index_of_name(url_names(urls), name) {
        Some(i) => Some(urls[i].url),
        None => None,
    }
}

/// The addresses among the first `count` fields: those whose value is a
/// string, in their order.
pub open spec fn urls_among(fields: Seq<PlistFieldView>, count: nat) -> Seq<UrlEntryView>
    decreases count,
{
    if count == 0 {
        Seq::empty()
    } else {
        match fields[count - 1].text {
            Some(url) => urls_among(fields, (count - 1) as nat).push(
                UrlEntryView { name: fields[count - 1].key, url },
            ),
            None => urls_among(fields, (count - 1) as nat),
        }
    }
}

/// The addresses that a parsed lookup response names, or why it names none.
pub open spec fn url_bag(root: Option<Seq<PlistItemView>>) -> Result<
    Seq<UrlEntryView>,
    ProvisioningErrorView,
> {
    match root {
        None => Err(ProvisioningErrorView::LookupRootNotDictionary),
        Some(items) => match dictionary_at(items, "urls"@) {
            None => Err(ProvisioningErrorView::MissingUrls),
            Some(fields) => Ok(urls_among(fields, fields.len())),
        },
    }
}

/// Reads the addresses out of a parsed lookup response.
pub fn read_url_bag(root: &Option<Vec<PlistItem>>) -> (r: Result<Vec<UrlEntry>, ProvisioningError>)
    ensures
        match url_bag(root_view(*root)) {
            Ok(urls) => (r matches Ok(found) && url_views(found@) == urls),
            Err(failure) => (r matches Err(e) && e@ == failure),
        },
{
    let items = match root {
        Some(items) => items,
        None => {
            return Err(ProvisioningError::LookupRootNotDictionary);
        },
    };
    let fields = match find_dictionary(items, "urls") {
        Some(fields) => fields,
        None => {
            return Err(ProvisioningError::MissingUrls);
        },
    };
    let mut urls: Vec<UrlEntry> = Vec::new();
    let mut i: usize = 0;
    assert(url_views(urls@) =~= urls_among(field_views(fields@), 0));
    while i < fields.len()
        invariant
            i <= fields@.len(),
            url_views(urls@) == urls_among(field_views(fields@), i as nat),
        decreases fields.len() - i,
    {
        let field = &fields[i];
        assert(field_views(fields@)[i as int] == field@);
        if let Some(url) = &field.text {
            let ghost before = urls@;
            let entry = UrlEntry { name: field.key.clone(), url: url.clone() };
            urls.push(entry);
            assert(url_views(urls@) =~= url_views(before).push(entry@));
        }
        i = i + 1;
    }
    Ok(urls)
}

/// Looks an address up by its name.
pub fn find_url(urls: &Vec<UrlEntry>, name: &str) -> (r: Option<String>)
    ensures
        match url_of(url_views(urls@), name@) {
            Some(url) => (r matches Some(found) && found@ == url),
            None => r is None,
        },
{
    let ghost names = url_names(url_views(urls@));
    let mut i: usize = 0;
    while i < urls.len()
        invariant
            i <= urls@.len(),
            names == url_names(url_views(urls@)),
            names.len() == urls@.len(),
            forall|j: int| 0 <= j < i ==> names[j] != name@,
        decreases urls.len() - i,
    {
        assert(names[i as int] == urls@[i as int].name@);
        if str_equal(urls[i].name.as_str(), name) {
            proof {
                lemma_index_of_name_found(names, name@, i as int);
                assert(url_views(urls@)[i as int] == urls@[i as int]@);
            }
            return Some(urls[i].url.clone());
        }
        i = i + 1;
    }
    proof {
        lemma_index_of_name_missing(names, name@);
    }
    None
}

/// The body of the request that starts a provisioning.
pub open spec fn start_body() -> Seq<char> {
    "<?xml version=\"1.0\" encoding=\"UTF-8\"?>\n<!DOCTYPE plist PUBLIC \"-//Apple//DTD PLIST 1.0//EN\" \"http://www.apple.com/DTDs/PropertyList-1.0.dtd\">\n<plist version=\"1.0\">\n<dict>\n  <key>Header</key>\n  <dict/>\n  <key>Request</key>\n  <dict/>\n</dict>\n</plist>"@
}

/// The body of the request that finishes a provisioning with the client's
/// provisioning data, base64-encoded.
pub open spec fn finish_body(cpim: Seq<char>) -> Seq<char> {
    "<?xml version=\"1.0\" encoding=\"UTF-8\"?>\n<!DOCTYPE plist PUBLIC \"-//Apple//DTD PLIST 1.0//EN\" \"http://www.apple.com/DTDs/PropertyList-1.0.dtd\">\n<plist version=\"1.0\">\n<dict>\n  <key>Header</key>\n  <dict/>\n  <key>Request</key>\n  <dict>\n    <key>cpim</key>\n    <string>"@
        + cpim + "</string>\n  </dict>\n</dict>\n</plist>"@
}

/// Writes the body of the request that finishes a provisioning.
pub fn finish_request_body(cpim: &str) -> (r: String)
    ensures
        r@ == finish_body(cpim@),
{
    let mut body = String::from_str(
        "<?xml version=\"1.0\" encoding=\"UTF-8\"?>\n<!DOCTYPE plist PUBLIC \"-//Apple//DTD PLIST 1.0//EN\" \"http://www.apple.com/DTDs/PropertyList-1.0.dtd\">\n<plist version=\"1.0\">\n<dict>\n  <key>Header</key>\n  <dict/>\n  <key>Request</key>\n  <dict>\n    <key>cpim</key>\n    <string>",
    );
    body.append(cpim);
    body.append("</string>\n  </dict>\n</dict>\n</plist>");
    body
}

/// A header of a request.
#[derive(Debug)]
pub struct Header {
    pub name: String,
    pub value: String,
}

impl View for Header {
    type V = (Seq<char>, Seq<char>);

    open spec fn view(&self) -> (Seq<char>, Seq<char>) {
        (self.name@, self.value@)
    }
}

pub open spec fn header_views(headers: Seq<Header>) -> Seq<(Seq<char>, Seq<char>)> {
    headers.map_values(|h: Header| h@)
}

/// The headers that every request to the server carries, in their order.
pub open spec fn common_header_list(
    device_identifier: Seq<char>,
    client_info: Seq<char>,
    local_user: Seq<char>,
) -> Seq<(Seq<char>, Seq<char>)> {
    seq![
        ("User-Agent"@, "akd/1.0 CFNetwork/1404.0.5 Darwin/22.3.0"@),
        ("Content-Type"@, "application/x-www-form-urlencoded"@),
        ("Connection"@, "keep-alive"@),
        ("X-Mme-Device-Id"@, device_identifier),
        ("X-MMe-Client-Info"@, client_info),
        ("X-Apple-I-MD-LU"@, local_user),
        ("X-Apple-Client-App-Name"@, "Setup"@),
    ]
}

fn header(name: &str, value: &str) -> (r: Header)
    ensures
        r@ == (name@, value@),
{
    Header { name: name.to_owned(), value: value.to_owned() }
}

/// The headers that every request of a device carries.
pub fn common_headers(device: &DeviceData) -> (r: Vec<Header>)
    ensures
        header_views(r@) == common_header_list(
            device.unique_device_identifier@,
            device.server_friendly_description@,
            device.local_user_uuid@,
        ),
{
    let mut headers: Vec<Header> = Vec::new();
    headers.push(header("User-Agent", "akd/1.0 CFNetwork/1404.0.5 Darwin/22.3.0"));
    headers.push(header("Content-Type", "application/x-www-form-urlencoded"));
    headers.push(header("Connection", "keep-alive"));
    headers.push(header("X-Mme-Device-Id", device.unique_device_identifier.as_str()));
    headers.push(header("X-MMe-Client-Info", device.server_friendly_description.as_str()));
    headers.push(header("X-Apple-I-MD-LU", device.local_user_uuid.as_str()));
    headers.push(header("X-Apple-Client-App-Name", "Setup"));
    assert(header_views(headers@) =~= common_header_list(
        device.unique_device_identifier@,
        device.server_friendly_description@,
        device.local_user_uuid@,
    ));
    headers
}

/// What a provisioning needs next from the outside.
#[derive(Debug)]
pub enum ProvisioningAction {
    /// Fetch `url` and hand the response's body to `on_response`.
    Get { url: String },
    /// Post `body` to `url`, with the client's time among the headers, and
    /// hand the response's body to `on_response`.
    Post { url: String, body: String },
    /// Start the provisioning in the guest and hand the result to
    /// `on_started`.
    StartProvisioning { dsid: u64, spim: Vec<u8> },
    /// End the provisioning in the guest and report to `on_ended`.
    EndProvisioning { session: u32, ptm: Vec<u8>, tk: Vec<u8> },
    /// The machine is provisioned.
    Done,
}

pub enum ProvisioningActionView {
    Get { url: Seq<char> },
    Post { url: Seq<char>, body: Seq<char> },
    StartProvisioning { dsid: u64, spim: Seq<u8> },
    EndProvisioning { session: u32, ptm: Seq<u8>, tk: Seq<u8> },
    Done,
}

impl View for ProvisioningAction {
    type V = ProvisioningActionView;

    open spec fn view(&self) -> ProvisioningActionView {
        match self {
            ProvisioningAction::Get { url } => ProvisioningActionView::Get { url: url@ },
            ProvisioningAction::Post { url, body } => ProvisioningActionView::Post {
                url: url@,
                body: body@,
            },
            ProvisioningAction::StartProvisioning { dsid, spim } => {
                ProvisioningActionView::StartProvisioning { dsid: *dsid, spim: spim@ }
            },
            ProvisioningAction::EndProvisioning { session, ptm, tk } => {
                ProvisioningActionView::EndProvisioning { session: *session, ptm: ptm@, tk: tk@ }
            },
            ProvisioningAction::Done => ProvisioningActionView::Done,
        }
    }
}

/// How far a provisioning has come.
#[derive(Debug)]
pub enum Stage {
    /// Nothing is going on.
    Idle,
    /// The addresses were asked for.
    Lookup { dsid: u64 },
    /// The start request is on its way.
    Start { dsid: u64, finish_url: String },
    /// The guest starts the provisioning.
    GuestStart { finish_url: String },
    /// The finish request is on its way.
    Finish { session: u32 },
    /// The guest ends the provisioning.
    GuestEnd,
}

pub enum StageView {
    Idle,
    Lookup { dsid: u64 },
    Start { dsid: u64, finish_url: Seq<char> },
    GuestStart { finish_url: Seq<char> },
    Finish { session: u32 },
    GuestEnd,
}

impl View for Stage {
    type V = StageView;

    open spec fn view(&self) -> StageView {
        match self {
            Stage::Idle => StageView::Idle,
            Stage::Lookup { dsid } => StageView::Lookup { dsid: *dsid },
            Stage::Start { dsid, finish_url } => StageView::Start {
                dsid: *dsid,
                finish_url: finish_url@,
            },
            Stage::GuestStart { finish_url } => StageView::GuestStart { finish_url: finish_url@ },
            Stage::Finish { session } => StageView::Finish { session: *session },
            Stage::GuestEnd => StageView::GuestEnd,
        }
    }
}

/// A provisioning of the machine with the server's help: the requests to make
/// and the guest calls between them, one after the other.
#[derive(Debug)]
pub struct ProvisioningSession {
    /// The addresses of the server, once they were looked up.
    pub url_bag: Vec<UrlEntry>,
    pub stage: Stage,
}

/// The step that has the addresses: it posts the start request, or fails
/// where the addresses lack one of the two that a provisioning needs.
pub open spec fn start_step(urls: Seq<UrlEntryView>, dsid: u64) -> Result<
    (ProvisioningActionView, StageView),
    ProvisioningErrorView,
> {
    match url_of(urls, "midStartProvisioning"@) {
        None => Err(ProvisioningErrorView::MissingUrl("midStartProvisioning"@)),
        Some(start_url) => match url_of(urls, "midFinishProvisioning"@) {
            None => Err(ProvisioningErrorView::MissingUrl("midFinishProvisioning"@)),
            Some(finish_url) => Ok(
                (
                    ProvisioningActionView::Post { url: start_url, body: start_body() },
                    StageView::Start { dsid, finish_url },
                ),
            ),
        },
    }
}

/// The first step of a provisioning: with addresses at hand the start
/// request, else the lookup of the addresses.
pub open spec fn provision_step(urls: Seq<UrlEntryView>, dsid: u64) -> Result<
    (ProvisioningActionView, StageView),
    ProvisioningErrorView,
> {
    if urls.len() == 0 {
        Ok((ProvisioningActionView::Get { url: lookup_url() }, StageView::Lookup { dsid }))
    } else {
        start_step(urls, dsid)
    }
}

/// The bytes of a base64 field of a parsed response.
pub open spec fn response_bytes(root: Option<Seq<PlistItemView>>, key: Seq<char>) -> Result<
    Seq<u8>,
    ProvisioningErrorView,
> {
    match response_string(root, key) {
        Err(failure) => Err(failure),
        Ok(text) => match base64_decoded(vstd::utf8::encode_utf8(text)) {
            Some(bytes) => Ok(bytes),
            None => Err(ProvisioningErrorView::Base64),
        },
    }
}

/// The step that a response leads to, with the addresses that the session
/// has afterwards. The lookup response gives the addresses and leads to the
/// start request; the start response gives the server's provisioning data for
/// the guest; the finish response gives the token and the trust key for the
/// guest. A response that nothing waits for is out of turn.
pub open spec fn response_step(urls: Seq<UrlEntryView>, stage: StageView, bytes: Seq<u8>) -> Result<
    (ProvisioningActionView, StageView, Seq<UrlEntryView>),
    ProvisioningErrorView,
> {
    match stage {
        StageView::Lookup { dsid } => match parsed_plist(bytes) {
            None => Err(ProvisioningErrorView::Plist),
            Some(root) => match url_bag(root) {
                Err(failure) => Err(failure),
                Ok(found) => match start_step(found, dsid) {
                    Err(failure) => Err(failure),
                    Ok((action, next)) => Ok((action, next, found)),
                },
            },
        },
        StageView::Start { dsid, finish_url } => match parsed_plist(bytes) {
            None => Err(ProvisioningErrorView::Plist),
            Some(root) => match response_bytes(root, "spim"@) {
                Err(failure) => Err(failure),
                Ok(spim) => Ok(
                    (
                        ProvisioningActionView::StartProvisioning { dsid, spim },
                        StageView::GuestStart { finish_url },
                        urls,
                    ),
                ),
            },
        },
        StageView::Finish { session } => match parsed_plist(bytes) {
            None => Err(ProvisioningErrorView::Plist),
            Some(root) => match response_bytes(root, "ptm"@) {
                Err(failure) => Err(failure),
                Ok(ptm) => match response_bytes(root, "tk"@) {
                    Err(failure) => Err(failure),
                    Ok(tk) => Ok(
                        (
                            ProvisioningActionView::EndProvisioning { session, ptm, tk },
                            StageView::GuestEnd,
                            urls,
                        ),
                    ),
                },
            },
        },
        _ => Err(ProvisioningErrorView::OutOfTurn),
    }
}

/// The addresses that a session has after a response: those of the lookup
/// response where it waited for that and the response names some, else those
/// it had.
pub open spec fn urls_after(urls: Seq<UrlEntryView>, stage: StageView, bytes: Seq<u8>) -> Seq<
    UrlEntryView,
> {
    match stage {
        StageView::Lookup { dsid } => match parsed_plist(bytes) {
            Some(root) => match url_bag(root) {
                Ok(found) => found,
                Err(_) => urls,
            },
            None => urls,
        },
        _ => urls,
    }
}

/// Parses a response.
fn parse_response(bytes: &[u8]) -> (r: Result<Option<Vec<PlistItem>>, ProvisioningError>)
    ensures
        match parsed_plist(bytes@) {
            Some(root) => (r matches Ok(found) && root_view(found) == root),
            None => (r matches Err(e) && e@ == ProvisioningErrorView::Plist),
        },
{
    match plist_from_xml(bytes) {
        Ok(root) => Ok(root),
        Err(e) => Err(ProvisioningError::Plist(e)),
    }
}

/// Reads a base64 field out of the `Response` dictionary of a response.
fn read_response_bytes(root: &Option<Vec<PlistItem>>, key: &str) -> (r: Result<
    Vec<u8>,
    ProvisioningError,
>)
    ensures
        match response_bytes(root_view(*root), key@) {
            Ok(bytes) => (r matches Ok(found) && found@ == bytes),
            Err(failure) => (r matches Err(e) && e@ == failure),
        },
{
    let text = plist_get_string_in_response(root, key)?;
    match base64_decode(text.as_str().as_bytes()) {
        Ok(bytes) => Ok(bytes),
        Err(e) => Err(ProvisioningError::Base64(e)),
    }
}

impl ProvisioningSession {
    /// A session that has not looked the addresses up yet.
    pub fn new() -> (r: Self)
        ensures
            r.url_bag@.len() == 0,
            r.stage@ == StageView::Idle,
    {
        Self { url_bag: Vec::new(), stage: Stage::Idle }
    }

    /// The addresses, by their views.
    pub open spec fn urls(&self) -> Seq<UrlEntryView> {
        url_views(self.url_bag@)
    }

    /// Plans the start request from the addresses at hand.
    fn start(&mut self, dsid: u64) -> (r: Result<ProvisioningAction, ProvisioningError>)
        ensures
            final(self).url_bag == old(self).url_bag,
            match start_step(old(self).urls(), dsid) {
                Ok((action, stage)) => (r matches Ok(next) && next@ == action && final(self).stage@ == stage),
                Err(failure) => (r matches Err(e) && e@ == failure && final(self).stage@
                    == StageView::Idle),
            },
    {
        self.stage = Stage::Idle;
        let start_url = match find_url(&self.url_bag, "midStartProvisioning") {
            Some(url) => url,
            None => {
                return Err(ProvisioningError::MissingUrl("midStartProvisioning".to_owned()));
            },
        };
        let finish_url = match find_url(&self.url_bag, "midFinishProvisioning") {
            Some(url) => url,
            None => {
                return Err(ProvisioningError::MissingUrl("midFinishProvisioning".to_owned()));
            },
        };
        self.stage = Stage::Start { dsid, finish_url };
        Ok(
            ProvisioningAction::Post {
                url: start_url,
                body: String::from_str(
                    "<?xml version=\"1.0\" encoding=\"UTF-8\"?>\n<!DOCTYPE plist PUBLIC \"-//Apple//DTD PLIST 1.0//EN\" \"http://www.apple.com/DTDs/PropertyList-1.0.dtd\">\n<plist version=\"1.0\">\n<dict>\n  <key>Header</key>\n  <dict/>\n  <key>Request</key>\n  <dict/>\n</dict>\n</plist>",
                ),
            },
        )
    }

    /// Begins the provisioning of the machine for the account `dsid`. A
    /// provisioning that was under way is given up. After a failure the
    /// session is idle.
    pub fn provision(&mut self, dsid: u64) -> (r: Result<ProvisioningAction, ProvisioningError>)
        ensures
            final(self).url_bag == old(self).url_bag,
            match provision_step(old(self).urls(), dsid) {
                Ok((action, stage)) => (r matches Ok(next) && next@ == action && final(self).stage@ == stage),
                Err(failure) => (r matches Err(e) && e@ == failure && final(self).stage@
                    == StageView::Idle),
            },
    {
        if self.url_bag.len() == 0 {
            self.stage = Stage::Lookup { dsid };
            return Ok(
                ProvisioningAction::Get {
                    url: String::from_str("https://gsa.apple.com/grandslam/GsService2/lookup"),
                },
            );
        }
        self.start(dsid)
    }

    /// Goes on with the body of the response to the request that is under
    /// way. After a failure the session is idle; addresses that were read
    /// before the failure are kept.
    pub fn on_response(&mut self, bytes: &[u8]) -> (r: Result<
        ProvisioningAction,
        ProvisioningError,
    >)
        ensures
            final(self).urls() == urls_after(old(self).urls(), old(self).stage@, bytes@),
            match response_step(old(self).urls(), old(self).stage@, bytes@) {
                Ok((action, stage, urls)) => (r matches Ok(next) && next@ == action && final(self).stage@ == stage && final(self).urls() == urls),
                Err(failure) => (r matches Err(e) && e@ == failure && final(self).stage@
                    == StageView::Idle),
            },
    {
        let mut stage = Stage::Idle;
        std::mem::swap(&mut self.stage, &mut stage);
        match stage {
            Stage::Lookup { dsid } => {
                let root = parse_response(bytes)?;
                let urls = read_url_bag(&root)?;
                self.url_bag = urls;
                self.start(dsid)
            },
            Stage::Start { dsid, finish_url } => {
                let root = parse_response(bytes)?;
                let spim = read_response_bytes(&root, "spim")?;
                self.stage = Stage::GuestStart { finish_url };
                Ok(ProvisioningAction::StartProvisioning { dsid, spim })
            },
            Stage::Finish { session } => {
                let root = parse_response(bytes)?;
                let ptm = read_response_bytes(&root, "ptm")?;
                let tk = read_response_bytes(&root, "tk")?;
                self.stage = Stage::GuestEnd;
                Ok(ProvisioningAction::EndProvisioning { session, ptm, tk })
            },
            _ => Err(ProvisioningError::OutOfTurn),
        }
    }

    /// Goes on with what the guest made of the server's provisioning data:
    /// the finish request carries the client's provisioning data. After a
    /// failure the session is idle.
    pub fn on_started(&mut self, started: ProvisioningStartResult) -> (r: Result<
        ProvisioningAction,
        ProvisioningError,
    >)
        ensures
            final(self).url_bag == old(self).url_bag,
            match old(self).stage@ {
                StageView::GuestStart { finish_url } => if started.cpim@.len() <= usize::MAX / 2 {
                    &&& r matches Ok(next)
                    &&& next@ == (ProvisioningActionView::Post {
                        url: finish_url,
                        body: finish_body(base64_encoded(started.cpim@)),
                    })
                    &&& final(self).stage@ == (StageView::Finish { session: started.session })
                } else {
                    &&& r matches Err(e)
                    &&& e@ == ProvisioningErrorView::TooLong
                    &&& final(self).stage@ == StageView::Idle
                },
                _ => {
                    &&& r matches Err(e)
                    &&& e@ == ProvisioningErrorView::OutOfTurn
                    &&& final(self).stage@ == StageView::Idle
                },
            },
    {
        let mut stage = Stage::Idle;
        std::mem::swap(&mut self.stage, &mut stage);
        match stage {
            Stage::GuestStart { finish_url } => {
                if started.cpim.len() > usize::MAX / 2 {
                    return Err(ProvisioningError::TooLong);
                }
                let cpim = base64_encode(started.cpim.as_slice());
                let body = finish_request_body(cpim.as_str());
                self.stage = Stage::Finish { session: started.session };
                Ok(ProvisioningAction::Post { url: finish_url, body })
            },
            _ => Err(ProvisioningError::OutOfTurn),
        }
    }

    /// Goes on after the guest ended the provisioning: nothing is left to do.
    /// The session is idle afterwards.
    pub fn on_ended(&mut self) -> (r: Result<ProvisioningAction, ProvisioningError>)
        ensures
            final(self).url_bag == old(self).url_bag,
            final(self).stage@ == StageView::Idle,
            old(self).stage@ == StageView::GuestEnd ==> (r matches Ok(next) && next@
                == ProvisioningActionView::Done),
            old(self).stage@ != StageView::GuestEnd ==> (r matches Err(e) && e@
                == ProvisioningErrorView::OutOfTurn),
    {
        let mut stage = Stage::Idle;
        std::mem::swap(&mut self.stage, &mut stage);
        match stage {
            Stage::GuestEnd => Ok(ProvisioningAction::Done),
            _ => Err(ProvisioningError::OutOfTurn),
        }
    }
}

} // verus!
