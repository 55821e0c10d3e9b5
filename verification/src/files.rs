//! The file store: upload a document, then get a signed address for it.

use vstd::prelude::*;
use vstd::string::StringExecFns;

use crate::chat::chat_request::{document_message, message_json};
use crate::http::{
    endpoint, endpoint_of, FormPart, FormPartView, HttpBody, HttpBodyView, HttpMethod, HttpReply,
    HttpRequest, HttpRequestView,
};
use crate::json::{optional_u64_member, text_member, u64_member, value_json, Json};
use crate::ocr::{body_holds_the_document, ocr_request_json};
use crate::{
    read_reply, reply_of, MistralClient, MistralClientView, MistralError, MistralErrorView,
};

verus! {

/// What the service records of an uploaded file. `id` names the file in
/// later calls.
#[derive(Debug, PartialEq, Eq)]
pub struct FileData {
    pub id: String,
    pub object: String,
    pub bytes: u64,
    pub created_at: u64,
    pub filename: String,
    pub purpose: String,
    pub sample_type: String,
    pub num_lines: Option<u64>,
    pub source: String,
}

/// The view of [`FileData`].
pub struct FileDataView {
    pub id: Seq<char>,
    pub object: Seq<char>,
    pub bytes: u64,
    pub created_at: u64,
    pub filename: Seq<char>,
    pub purpose: Seq<char>,
    pub sample_type: Seq<char>,
    pub num_lines: Option<u64>,
    pub source: Seq<char>,
}

impl View for FileData {
    type V = FileDataView;

    open spec fn view(&self) -> FileDataView {
        FileDataView {
            id: self.id@,
            object: self.object@,
            bytes: self.bytes,
            created_at: self.created_at,
            filename: self.filename@,
            purpose: self.purpose@,
            sample_type: self.sample_type@,
            num_lines: self.num_lines,
            source: self.source@,
        }
    }
}

/// An address under which an uploaded file can be read for a limited time.
/// The crate keeps no clock: the address is good when it is handed out, and
/// it is for the caller to use it soon.
#[derive(Debug, PartialEq, Eq)]
pub struct SignedUrl {
    pub url: String,
}

/// The view of [`SignedUrl`].
pub struct SignedUrlView {
    pub url: Seq<char>,
}

impl View for SignedUrl {
    type V = SignedUrlView;

    open spec fn view(&self) -> SignedUrlView {
        SignedUrlView { url: self.url@ }
    }
}

/// `{id, object, bytes, created_at, filename, purpose, sample_type,
/// num_lines?, source}`: the body of a successful upload.
pub open spec fn file_data_of(doc: Json) -> Option<FileDataView> {
    if doc.text_member("id"@) is Some && doc.text_member("object"@) is Some && doc.u64_member(
        "bytes"@,
    ) is Some && doc.u64_member("created_at"@) is Some && doc.text_member("filename"@) is Some
        && doc.text_member("purpose"@) is Some && doc.text_member("sample_type"@) is Some
        && doc.optional_u64_member("num_lines"@) is Some && doc.text_member("source"@) is Some {
        Some(
            FileDataView {
                id: doc.text_member("id"@).unwrap(),
                object: doc.text_member("object"@).unwrap(),
                bytes: doc.u64_member("bytes"@).unwrap(),
                created_at: doc.u64_member("created_at"@).unwrap(),
                filename: doc.text_member("filename"@).unwrap(),
                purpose: doc.text_member("purpose"@).unwrap(),
                sample_type: doc.text_member("sample_type"@).unwrap(),
                num_lines: doc.optional_u64_member("num_lines"@).unwrap(),
                source: doc.text_member("source"@).unwrap(),
            },
        )
    } else {
        None
    }
}

/// `{url}`: the body of a successful request for a signed address.
pub open spec fn signed_url_of(doc: Json) -> Option<SignedUrlView> {
    match doc.text_member("url"@) {
        Some(url) => Some(SignedUrlView { url }),
        None => None,
    }
}

impl FileData {
    /// Decodes a document: see [`file_data_of`].
    pub fn from_json(v: &serde_json::Value) -> (r: Option<FileData>)
        ensures
            match r {
                Some(data) => file_data_of(value_json(*v)) == Some(data@),
                None => file_data_of(value_json(*v)) is None,
            },
    {
        let id = text_member(v, "id")?;
        let object = text_member(v, "object")?;
        let bytes = u64_member(v, "bytes")?;
        let created_at = u64_member(v, "created_at")?;
        let filename = text_member(v, "filename")?;
        let purpose = text_member(v, "purpose")?;
        let sample_type = text_member(v, "sample_type")?;
        let num_lines = optional_u64_member(v, "num_lines")?;
        let source = text_member(v, "source")?;
        Some(
            FileData {
                id,
                object,
                bytes,
                created_at,
                filename,
                purpose,
                sample_type,
                num_lines,
                source,
            },
        )
    }
}

impl SignedUrl {
    /// Decodes a document: see [`signed_url_of`].
    pub fn from_json(v: &serde_json::Value) -> (r: Option<SignedUrl>)
        ensures
            match r {
                Some(signed) => signed_url_of(value_json(*v)) == Some(signed@),
                None => signed_url_of(value_json(*v)) is None,
            },
    {
        let url = text_member(v, "url")?;
        Some(SignedUrl { url })
    }
}

/// The form that uploads `data`: the purpose `ocr`, then the bytes as the
/// file `uploaded_file.pdf`.
pub open spec fn upload_form(data: Seq<u8>) -> Seq<FormPartView> {
    seq![
        FormPartView::Text { name: "purpose"@, value: "ocr"@ },
        FormPartView::File { name: "file"@, file_name: "uploaded_file.pdf"@, data },
    ]
}

/// The address that hands out a signed address for the file `file_id`, good
/// for 24 hours.
pub open spec fn signed_url_address(
    base_url: Seq<char>,
    files_path: Seq<char>,
    file_id: Seq<char>,
) -> Seq<char> {
    endpoint_of(endpoint_of(base_url, files_path), file_id) + "/url?expiry=24"@
}

/// A client for the file store.
pub struct FileClient<'a> {
    mistral_client: &'a MistralClient,
    files_path: String,
}

/// The view of [`FileClient`].
pub struct FileClientView {
    pub client: MistralClientView,
    pub files_path: Seq<char>,
}

impl<'a> View for FileClient<'a> {
    type V = FileClientView;

    closed spec fn view(&self) -> FileClientView {
        FileClientView { client: self.mistral_client@, files_path: self.files_path@ }
    }
}

impl<'a> FileClient<'a> {
    /// A client for the files endpoint of `mistral_client`.
    pub fn new(mistral_client: &'a MistralClient) -> (r: Self)
        ensures
            r@ == (FileClientView { client: mistral_client@, files_path: "files"@ }),
    {
        FileClient { mistral_client, files_path: "files".to_owned() }
    }

    /// The request that uploads `file_data`: a POST of [`upload_form`] to the
    /// files endpoint.
    pub fn upload_file_request(&self, file_data: Vec<u8>) -> (r: HttpRequest)
        ensures
            r@ == (HttpRequestView {
                method: HttpMethod::Post,
                url: endpoint_of(self@.client.base_url, self@.files_path),
                bearer_token: self@.client.api_key,
                body: HttpBodyView::Multipart(upload_form(file_data@)),
            }),
    {
        let mut parts: Vec<FormPart> = Vec::new();
        parts.push(FormPart::Text { name: "purpose".to_owned(), value: "ocr".to_owned() });
        parts.push(
            FormPart::File {
                name: "file".to_owned(),
                file_name: "uploaded_file.pdf".to_owned(),
                data: file_data,
            },
        );
        let request = HttpRequest {
            method: HttpMethod::Post,
            url: endpoint(self.mistral_client.base_url(), self.files_path.as_str()),
            bearer_token: self.mistral_client.api_key().to_owned(),
            body: HttpBody::Multipart(parts),
        };
        assert(request@.body->Multipart_0 =~= upload_form(file_data@));
        request
    }

    /// What the reply to an upload means.
    pub fn upload_file_response(reply: &HttpReply) -> (r: Result<FileData, MistralError>)
        ensures
            match r {
                Ok(decoded) => reply_of(reply@, |doc: Json| file_data_of(doc)) == Ok::<
                    FileDataView,
                    MistralErrorView,
                >(decoded@),
                Err(e) => reply_of(reply@, |doc: Json| file_data_of(doc)) == Err::<
                    FileDataView,
                    MistralErrorView,
                >(e@),
            },
    {
        let v = read_reply(reply)?;
        match FileData::from_json(&v) {
            Some(decoded) => Ok(decoded),
            None => Err(MistralError::wrong_shape(reply)),
        }
    }

    /// The request for a signed address of the file `file_id`: a GET of
    /// [`signed_url_address`].
    pub fn get_signed_url_request(&self, file_id: &str) -> (r: HttpRequest)
        ensures
            r@ == (HttpRequestView {
                method: HttpMethod::Get,
                url: signed_url_address(self@.client.base_url, self@.files_path, file_id@),
                bearer_token: self@.client.api_key,
                body: HttpBodyView::Empty,
            }),
    {
        let files = endpoint(self.mistral_client.base_url(), self.files_path.as_str());
        let mut url = endpoint(files.as_str(), file_id);
        url.append("/url?expiry=24");
        HttpRequest {
            method: HttpMethod::Get,
            url,
            bearer_token: self.mistral_client.api_key().to_owned(),
            body: HttpBody::Empty,
        }
    }

    /// What the reply to a request for a signed address means.
    pub fn get_signed_url_response(reply: &HttpReply) -> (r: Result<SignedUrl, MistralError>)
        ensures
            match r {
                Ok(decoded) => reply_of(reply@, |doc: Json| signed_url_of(doc)) == Ok::<
                    SignedUrlView,
                    MistralErrorView,
                >(decoded@),
                Err(e) => reply_of(reply@, |doc: Json| signed_url_of(doc)) == Err::<
                    SignedUrlView,
                    MistralErrorView,
                >(e@),
            },
    {
        let v = read_reply(reply)?;
        match SignedUrl::from_json(&v) {
            Some(decoded) => Ok(decoded),
            None => Err(MistralError::wrong_shape(reply)),
        }
    }
}

/// A signed address goes from the answer that hands it out into the request
/// that names the document, unchanged: it is the string that the service
/// sent, and it is the string that an OCR request and a document message
/// send back.
pub proof fn signed_url_is_passed_on(reply: Json, model: Seq<char>, text: Seq<char>)
    requires
        signed_url_of(reply) is Some,
    ensures
        ({
            let url = signed_url_of(reply).unwrap().url;
            &&& reply.member("url"@) == Some(Json::Text(url))
            &&& ocr_request_json(model, url).member("document"@) matches Some(document)
            &&& document.member("document_url"@) == Some(Json::Text(url))
            &&& message_json(document_message(text, url)).member("content"@) matches Some(
                Json::Array(parts),
            )
            &&& parts.len() == 2
            &&& parts[0].member("text"@) == Some(Json::Text(text))
            &&& parts[1].member("document_url"@) == Some(Json::Text(url))
        }),
{
    let url = signed_url_of(reply).unwrap().url;
    body_holds_the_document(model, url);
}

} // verus!
