//! OCR: one document in, its pages as markdown out.

use vstd::prelude::*;

use crate::http::{
    endpoint, endpoint_of, HttpBody, HttpBodyView, HttpMethod, HttpReply, HttpRequest,
    HttpRequestView,
};
use crate::json::{
    bool_value, each, each_fails_at, each_reads, empty_object, json_text, member,
    optional_text_member, render, set_member, text_member, text_value, u32_member, u64_member,
    value_json, values_json, Json,
};
use crate::{
    read_reply, reply_of, views, MistralClient, MistralClientView, MistralError, MistralErrorView,
};

verus! {

/// The size of a page in pixels, and its resolution.
#[derive(Debug, PartialEq, Eq)]
pub struct Dimensions {
    pub dpi: u32,
    pub height: u32,
    pub width: u32,
}

/// What a call has used up.
#[derive(Debug, PartialEq, Eq)]
pub struct UsageInfo {
    pub pages_processed: u32,
    pub doc_size_bytes: u64,
}

/// An image found on a page: its name and the corners of its bounding box.
#[derive(Debug, PartialEq, Eq)]
pub struct Image {
    pub id: String,
    pub top_left_x: u32,
    pub top_left_y: u32,
    pub bottom_right_x: u32,
    pub bottom_right_y: u32,
    pub image_base64: Option<String>,
}

/// The view of [`Image`].
pub struct ImageView {
    pub id: Seq<char>,
    pub top_left_x: u32,
    pub top_left_y: u32,
    pub bottom_right_x: u32,
    pub bottom_right_y: u32,
    pub image_base64: Option<Seq<char>>,
}

impl View for Image {
    type V = ImageView;

    open spec fn view(&self) -> ImageView {
        ImageView {
            id: self.id@,
            top_left_x: self.top_left_x,
            top_left_y: self.top_left_y,
            bottom_right_x: self.bottom_right_x,
            bottom_right_y: self.bottom_right_y,
            image_base64: match self.image_base64 {
                Some(data) => Some(data@),
                None => None,
            },
        }
    }
}

/// One page of a document.
#[derive(Debug, PartialEq, Eq)]
pub struct Page {
    pub index: u32,
    pub markdown: String,
    pub images: Vec<Image>,
    pub dimensions: Dimensions,
}

/// The view of [`Page`].
pub struct PageView {
    pub index: u32,
    pub markdown: Seq<char>,
    pub images: Seq<ImageView>,
    pub dimensions: Dimensions,
}

impl View for Page {
    type V = PageView;

    open spec fn view(&self) -> PageView {
        PageView {
            index: self.index,
            markdown: self.markdown@,
            images: views(self.images@),
            dimensions: self.dimensions,
        }
    }
}

/// The result of OCR on one document: an entry per page, in order.
#[derive(Debug, PartialEq, Eq)]
pub struct OcrResponse {
    pub pages: Vec<Page>,
    pub model: String,
    pub usage_info: UsageInfo,
}

/// The view of [`OcrResponse`].
pub struct OcrResponseView {
    pub pages: Seq<PageView>,
    pub model: Seq<char>,
    pub usage_info: UsageInfo,
}

impl View for OcrResponse {
    type V = OcrResponseView;

    open spec fn view(&self) -> OcrResponseView {
        OcrResponseView {
            pages: views(self.pages@),
            model: self.model@,
            usage_info: self.usage_info,
        }
    }
}

/// `{dpi, height, width}`, each an integer that fits 32 bits.
pub open spec fn dimensions_of(doc: Json) -> Option<Dimensions> {
    if doc.u32_member("dpi"@) is Some && doc.u32_member("height"@) is Some && doc.u32_member(
        "width"@,
    ) is Some {
        Some(
            Dimensions {
                dpi: doc.u32_member("dpi"@).unwrap(),
                height: doc.u32_member("height"@).unwrap(),
                width: doc.u32_member("width"@).unwrap(),
            },
        )
    } else {
        None
    }
}

/// `{pages_processed, doc_size_bytes}`.
pub open spec fn usage_info_of(doc: Json) -> Option<UsageInfo> {
    if doc.u32_member("pages_processed"@) is Some && doc.u64_member("doc_size_bytes"@) is Some {
        Some(
            UsageInfo {
                pages_processed: doc.u32_member("pages_processed"@).unwrap(),
                doc_size_bytes: doc.u64_member("doc_size_bytes"@).unwrap(),
            },
        )
    } else {
        None
    }
}

/// `{id, top_left_x, top_left_y, bottom_right_x, bottom_right_y,
/// image_base64?}`.
pub open spec fn image_of(doc: Json) -> Option<ImageView> {
    if doc.text_member("id"@) is Some && doc.u32_member("top_left_x"@) is Some && doc.u32_member(
        "top_left_y"@,
    ) is Some && doc.u32_member("bottom_right_x"@) is Some && doc.u32_member("bottom_right_y"@)
        is Some && doc.optional_text_member("image_base64"@) is Some {
        Some(
            ImageView {
                id: doc.text_member("id"@).unwrap(),
                top_left_x: doc.u32_member("top_left_x"@).unwrap(),
                top_left_y: doc.u32_member("top_left_y"@).unwrap(),
                bottom_right_x: doc.u32_member("bottom_right_x"@).unwrap(),
                bottom_right_y: doc.u32_member("bottom_right_y"@).unwrap(),
                image_base64: doc.optional_text_member("image_base64"@).unwrap(),
            },
        )
    } else {
        None
    }
}

/// An array of images.
pub open spec fn images_of(doc: Json) -> Option<Seq<ImageView>> {
    match doc {
        Json::Array(items) => each(items, |item: Json| image_of(item)),
        _ => None,
    }
}

/// `{index, markdown, images, dimensions}`.
pub open spec fn page_of(doc: Json) -> Option<PageView> {
    if doc.u32_member("index"@) is Some && doc.text_member("markdown"@) is Some && doc.member(
        "images"@,
    ) is Some && images_of(doc.member("images"@).unwrap()) is Some && doc.member("dimensions"@)
        is Some && dimensions_of(doc.member("dimensions"@).unwrap()) is Some {
        Some(
            PageView {
                index: doc.u32_member("index"@).unwrap(),
                markdown: doc.text_member("markdown"@).unwrap(),
                images: images_of(doc.member("images"@).unwrap()).unwrap(),
                dimensions: dimensions_of(doc.member("dimensions"@).unwrap()).unwrap(),
            },
        )
    } else {
        None
    }
}

/// An array of pages.
pub open spec fn pages_of(doc: Json) -> Option<Seq<PageView>> {
    match doc {
        Json::Array(items) => each(items, |item: Json| page_of(item)),
        _ => None,
    }
}

/// `{pages, model, usage_info}`: the body of a successful answer.
pub open spec fn ocr_response_of(doc: Json) -> Option<OcrResponseView> {
    if doc.member("pages"@) is Some && pages_of(doc.member("pages"@).unwrap()) is Some
        && doc.text_member("model"@) is Some && doc.member("usage_info"@) is Some && usage_info_of(
        doc.member("usage_info"@).unwrap(),
    ) is Some {
        Some(
            OcrResponseView {
                pages: pages_of(doc.member("pages"@).unwrap()).unwrap(),
                model: doc.text_member("model"@).unwrap(),
                usage_info: usage_info_of(doc.member("usage_info"@).unwrap()).unwrap(),
            },
        )
    } else {
        None
    }
}

impl Dimensions {
    /// Decodes a document: see [`dimensions_of`].
    pub fn from_json(v: &serde_json::Value) -> (r: Option<Dimensions>)
        ensures
            r == dimensions_of(value_json(*v)),
    {
        let dpi = u32_member(v, "dpi")?;
        let height = u32_member(v, "height")?;
        let width = u32_member(v, "width")?;
        Some(Dimensions { dpi, height, width })
    }
}

impl UsageInfo {
    /// Decodes a document: see [`usage_info_of`].
    pub fn from_json(v: &serde_json::Value) -> (r: Option<UsageInfo>)
        ensures
            r == usage_info_of(value_json(*v)),
    {
        let pages_processed = u32_member(v, "pages_processed")?;
        let doc_size_bytes = u64_member(v, "doc_size_bytes")?;
        Some(UsageInfo { pages_processed, doc_size_bytes })
    }
}

impl Image {
    /// Decodes a document: see [`image_of`].
    pub fn from_json(v: &serde_json::Value) -> (r: Option<Image>)
        ensures
            match r {
                Some(image) => image_of(value_json(*v)) == Some(image@),
                None => image_of(value_json(*v)) is None,
            },
    {
        let id = text_member(v, "id")?;
        let top_left_x = u32_member(v, "top_left_x")?;
        let top_left_y = u32_member(v, "top_left_y")?;
        let bottom_right_x = u32_member(v, "bottom_right_x")?;
        let bottom_right_y = u32_member(v, "bottom_right_y")?;
        let image_base64 = optional_text_member(v, "image_base64")?;
        Some(Image { id, top_left_x, top_left_y, bottom_right_x, bottom_right_y, image_base64 })
    }

    /// Decodes an array of images.
    pub fn all_from_json(v: &serde_json::Value) -> (r: Option<Vec<Image>>)
        ensures
            match r {
                Some(images) => images_of(value_json(*v)) == Some(views(images@)),
                None => images_of(value_json(*v)) is None,
            },
    {
        let items = match v.as_array() {
            Some(items) => items,
            None => {
                return None;
            },
        };
        let ghost docs = values_json(items@);
        let ghost shape = |item: Json| image_of(item);
        let mut images: Vec<Image> = Vec::new();
        let mut i: usize = 0;
        while i < items.len()
            invariant
                i <= items.len(),
                images@.len() == i,
                docs == values_json(items@),
                value_json(*v) == Json::Array(docs),
                shape == |item: Json| image_of(item),
                forall|j: int| 0 <= j < i ==> image_of(#[trigger] docs[j]) == Some(images@[j]@),
            decreases items.len() - i,
        {
            match Image::from_json(&items[i]) {
                Some(image) => {
                    images.push(image);
                },
                None => {
                    proof {
                        each_fails_at(docs, shape, i as int);
                    }
                    return None;
                },
            }
            i += 1;
        }
        proof {
            each_reads(docs, shape, views(images@));
        }
        Some(images)
    }
}

impl Page {
    /// Decodes a document: see [`page_of`].
    pub fn from_json(v: &serde_json::Value) -> (r: Option<Page>)
        ensures
            match r {
                Some(page) => page_of(value_json(*v)) == Some(page@),
                None => page_of(value_json(*v)) is None,
            },
    {
        let index = u32_member(v, "index")?;
        let markdown = text_member(v, "markdown")?;
        let images = Image::all_from_json(member(v, "images")?)?;
        let dimensions = Dimensions::from_json(member(v, "dimensions")?)?;
        Some(Page { index, markdown, images, dimensions })
    }

    /// Decodes an array of pages.
    pub fn all_from_json(v: &serde_json::Value) -> (r: Option<Vec<Page>>)
        ensures
            match r {
                Some(pages) => pages_of(value_json(*v)) == Some(views(pages@)),
                None => pages_of(value_json(*v)) is None,
            },
    {
        let items = match v.as_array() {
            Some(items) => items,
            None => {
                return None;
            },
        };
        let ghost docs = values_json(items@);
        let ghost shape = |item: Json| page_of(item);
        let mut pages: Vec<Page> = Vec::new();
        let mut i: usize = 0;
        while i < items.len()
            invariant
                i <= items.len(),
                pages@.len() == i,
                docs == values_json(items@),
                value_json(*v) == Json::Array(docs),
                shape == |item: Json| page_of(item),
                forall|j: int| 0 <= j < i ==> page_of(#[trigger] docs[j]) == Some(pages@[j]@),
            decreases items.len() - i,
        {
            match Page::from_json(&items[i]) {
                Some(page) => {
                    pages.push(page);
                },
                None => {
                    proof {
                        each_fails_at(docs, shape, i as int);
                    }
                    return None;
                },
            }
            i += 1;
        }
        proof {
            each_reads(docs, shape, views(pages@));
        }
        Some(pages)
    }
}

impl OcrResponse {
    /// Decodes a document: see [`ocr_response_of`].
    pub fn from_json(v: &serde_json::Value) -> (r: Option<OcrResponse>)
        ensures
            match r {
                Some(response) => ocr_response_of(value_json(*v)) == Some(response@),
                None => ocr_response_of(value_json(*v)) is None,
            },
    {
        let pages = Page::all_from_json(member(v, "pages")?)?;
        let model = text_member(v, "model")?;
        let usage_info = UsageInfo::from_json(member(v, "usage_info")?)?;
        Some(OcrResponse { pages, model, usage_info })
    }
}

/// The body of an OCR request: the model, the document by its address, and
/// no images inline.
pub open spec fn ocr_request_json(model: Seq<char>, document_url: Seq<char>) -> Json {
    Json::empty_object().with_member("model"@, Json::Text(model)).with_member(
        "document"@,
        Json::empty_object().with_member("type"@, Json::Text("document_url"@)).with_member(
            "document_url"@,
            Json::Text(document_url),
        ),
    ).with_member("include_image_base64"@, Json::Bool(false))
}

/// A client for OCR: one endpoint, one model.
pub struct OcrClient<'a> {
    mistral_client: &'a MistralClient,
    ocr_path: String,
    model: String,
}

/// The view of [`OcrClient`].
pub struct OcrClientView {
    pub client: MistralClientView,
    pub ocr_path: Seq<char>,
    pub model: Seq<char>,
}

impl<'a> View for OcrClient<'a> {
    type V = OcrClientView;

    closed spec fn view(&self) -> OcrClientView {
        OcrClientView {
            client: self.mistral_client@,
            ocr_path: self.ocr_path@,
            model: self.model@,
        }
    }
}

impl<'a> OcrClient<'a> {
    /// A client for the OCR endpoint of `mistral_client`, with `model`.
    pub fn new(mistral_client: &'a MistralClient, model: &str) -> (r: Self)
        ensures
            r@ == (OcrClientView { client: mistral_client@, ocr_path: "ocr"@, model: model@ }),
    {
        OcrClient { mistral_client, ocr_path: "ocr".to_owned(), model: model.to_owned() }
    }

    /// The body of the request for the document at `signed_url`.
    pub fn request_json(&self, signed_url: &str) -> (r: serde_json::Value)
        ensures
            value_json(r) == ocr_request_json(self@.model, signed_url@),
    {
        let mut document = empty_object();
        set_member(&mut document, "type", text_value("document_url".to_owned()));
        set_member(&mut document, "document_url", text_value(signed_url.to_owned()));
        let mut body = empty_object();
        set_member(&mut body, "model", text_value(self.model.clone()));
        set_member(&mut body, "document", document);
        set_member(&mut body, "include_image_base64", bool_value(false));
        body
    }

    /// The request that asks for OCR of the document at `signed_url`: a POST
    /// to the OCR endpoint with [`ocr_request_json`] as its body.
    pub fn get_ocr_results_request(&self, signed_url: &str) -> (r: HttpRequest)
        ensures
            r@ == (HttpRequestView {
                method: HttpMethod::Post,
                url: endpoint_of(self@.client.base_url, self@.ocr_path),
                bearer_token: self@.client.api_key,
                body: HttpBodyView::Json(json_text(ocr_request_json(self@.model, signed_url@))),
            }),
    {
        let body = self.request_json(signed_url);
        HttpRequest {
            method: HttpMethod::Post,
            url: endpoint(self.mistral_client.base_url(), self.ocr_path.as_str()),
            bearer_token: self.mistral_client.api_key().to_owned(),
            body: HttpBody::Json(render(&body)),
        }
    }

    /// What the reply to that request means.
    pub fn get_ocr_results_response(reply: &HttpReply) -> (r: Result<OcrResponse, MistralError>)
        ensures
            match r {
                Ok(decoded) => reply_of(reply@, |doc: Json| ocr_response_of(doc)) == Ok::<
                    OcrResponseView,
                    MistralErrorView,
                >(decoded@),
                Err(e) => reply_of(reply@, |doc: Json| ocr_response_of(doc)) == Err::<
                    OcrResponseView,
                    MistralErrorView,
                >(e@),
            },
    {
        let v = read_reply(reply)?;
        match OcrResponse::from_json(&v) {
            Some(decoded) => Ok(decoded),
            None => Err(MistralError::wrong_shape(reply)),
        }
    }
}

/// What the body of an OCR request holds: the model, the document by its
/// address and under the tag `document_url`, the refusal of inline images,
/// and nothing else.
pub proof fn body_holds_the_document(model: Seq<char>, document_url: Seq<char>)
    ensures
        ({
            let body = ocr_request_json(model, document_url);
            &&& body.member("model"@) == Some(Json::Text(model))
            &&& body.member("include_image_base64"@) == Some(Json::Bool(false))
            &&& body.member("document"@) matches Some(document)
            &&& document.member("type"@) == Some(Json::Text("document_url"@))
            &&& document.member("document_url"@) == Some(Json::Text(document_url))
            &&& forall|key: Seq<char>| #[trigger]
                body.member(key) is Some ==> key == "model"@ || key == "document"@ || key
                    == "include_image_base64"@
        }),
{
    reveal_strlit("model");
    reveal_strlit("document");
    reveal_strlit("include_image_base64");
    reveal_strlit("type");
    reveal_strlit("document_url");
    assert("model"@.len() == 5 && "document"@.len() == 8 && "include_image_base64"@.len() == 20);
    assert("type"@.len() == 4 && "document_url"@.len() == 12);
}

} // verus!
