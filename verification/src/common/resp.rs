//! The uniform response envelope and the binding of request bodies.

use super::errors::MessageError;
use super::json::parse;
use super::json::json_parsed;
use super::json::lookup;
use super::json::members_view;
use super::json::optional_number_field;
use super::json::spec_optional_number_field;
use super::json::Json;
use super::json::JsonView;
use super::text::read_text;
use super::text::spec_read_text;
use vstd::prelude::*;

verus! {

/// Code carried by every successful envelope.
pub const CODE_SUCCESS: u32 = 200;

/// Message carried by every successful envelope.
pub const MESSAGE_SUCCESS: &'static str = "operation succeeded";

/// The message of a successful envelope, as a sequence of characters.
pub open spec fn success_message() -> Seq<char> {
    "operation succeeded"@
}

/// The envelope returned by every operation.
#[derive(Debug, Clone, PartialEq, Eq)]
pub struct BaseResponse<T> {
    pub code: u32,
    pub message: String,
    pub data: Option<T>,
}

impl<T> BaseResponse<T> {
    /// An envelope is well formed when it carries data exactly if its code
    /// is the success code.
    pub open spec fn wf(&self) -> bool {
        self.code == CODE_SUCCESS <==> self.data is Some
    }
}

/// Wire name of the code of an envelope.
pub const KEY_CODE: &'static str = "code";

/// Wire name of the message of an envelope.
pub const KEY_MESSAGE: &'static str = "message";

/// Wire name of the data of an envelope.
pub const KEY_DATA: &'static str = "data";

/// A value that travels as a JSON document.
pub trait Wire: View {
    /// The document that stands for a value.
    spec fn wire(model: Self::V) -> JsonView;

    /// Writes the value as a document.
    fn to_wire(&self) -> (doc: Json)
        ensures
            doc@ == Self::wire(self@),
    ;
}

impl Wire for () {
    open spec fn wire(model: ()) -> JsonView {
        JsonView::Null
    }

    fn to_wire(&self) -> (doc: Json) {
        Json::Null
    }
}

impl Wire for String {
    open spec fn wire(model: Seq<char>) -> JsonView {
        JsonView::Text(model)
    }

    fn to_wire(&self) -> (doc: Json) {
        Json::Text(self.clone())
    }
}

/// The document that stands for the data of an envelope: `null` for none.
pub open spec fn data_wire<T: Wire>(data: Option<T>) -> JsonView {
    match data {
        Some(data) => T::wire(data@),
        None => JsonView::Null,
    }
}

impl<T: Wire> BaseResponse<T> {
    /// The members that stand for the envelope on the wire: `code`,
    /// `message` and `data`, in this order.
    pub open spec fn fields(&self) -> Seq<(Seq<char>, JsonView)> {
        seq![
            (KEY_CODE@, JsonView::Unsigned(self.code as u64)),
            (KEY_MESSAGE@, JsonView::Text(self.message@)),
            (KEY_DATA@, data_wire(self.data)),
        ]
    }

    /// The envelope as a JSON object.
    pub fn to_json(&self) -> (doc: Json)
        ensures
            doc@ == JsonView::Object(self.fields()),
    {
        let data = match &self.data {
            Some(data) => data.to_wire(),
            None => Json::Null,
        };
        let mut members: Vec<(String, Json)> = Vec::new();
        members.push((KEY_CODE.to_string(), Json::Unsigned(self.code as u64)));
        members.push((KEY_MESSAGE.to_string(), Json::Text(self.message.clone())));
        members.push((KEY_DATA.to_string(), data));
        assert(members_view(members@) =~= self.fields());
        Json::Object(members)
    }
}

/// The envelope of a successful call. It never fails.
pub fn api_resp_sucess<T>(data: T) -> (r: Result<BaseResponse<T>, MessageError>)
    ensures
        r is Ok,
        r->Ok_0.code == CODE_SUCCESS,
        r->Ok_0.message@ == success_message(),
        r->Ok_0.data == Some(data),
        r->Ok_0.wf(),
{
    Ok(BaseResponse { code: CODE_SUCCESS, message: MESSAGE_SUCCESS.to_string(), data: Some(data) })
}

/// The envelope of a failed call: the given code and message, and no data.
/// Building it never fails.
pub fn api_resp_fail<T>(code: u32, message: &str) -> (r: Result<BaseResponse<T>, MessageError>)
    ensures
        r is Ok,
        r->Ok_0.code == code,
        r->Ok_0.message@ == message@,
        r->Ok_0.data is None,
        code != CODE_SUCCESS ==> r->Ok_0.wf(),
{
    Ok(BaseResponse { code, message: message.to_string(), data: None })
}

/// Page number of a request that names none.
pub const DEFAULT_PAGE_NO: usize = 1;

/// Page size of a request that names none.
pub const DEFAULT_PAGE_SIZE: usize = 20;

/// Status of a request whose body cannot be bound.
pub const STATUS_BAD_REQUEST: u16 = 400;

/// Wire name of the page number.
pub const KEY_PAGE_NO: &'static str = "pageNo";

/// Wire name of the page size.
pub const KEY_PAGE_SIZE: &'static str = "pageSize";

/// A payload that travels as the members of a JSON object.
pub trait Payload: View + Sized {
    /// The payload that a document stands for, or the complaint it earns.
    spec fn decoded(doc: JsonView) -> Result<Self::V, Seq<char>>;

    /// The members that stand for a payload, in the order they are written.
    spec fn fields(model: Self::V) -> Seq<(Seq<char>, JsonView)>;

    /// Reads the payload out of a document.
    fn from_json(doc: &Json) -> (r: Result<Self, String>)
        ensures
            r matches Ok(payload) ==> Self::decoded(doc@) == Ok::<Self::V, Seq<char>>(payload@),
            r matches Err(fault) ==> Self::decoded(doc@) == Err::<Self::V, Seq<char>>(fault@),
    ;

    /// Writes the payload as members of an object.
    fn to_fields(&self) -> (members: Vec<(String, Json)>)
        ensures
            members_view(members@) == Self::fields(self@),
    ;

    /// Reading gives back what was written, whatever members stand in front.
    proof fn decoded_inverts_fields(model: Self::V, before: Seq<(Seq<char>, JsonView)>)
        ensures
            Self::decoded(JsonView::Object(before + Self::fields(model))) == Ok::<
                Self::V,
                Seq<char>,
            >(model),
    ;

    /// No member of a payload bears a name of the pagination.
    proof fn fields_leave_pagination(model: Self::V)
        ensures
            forall|i: int|
                0 <= i < Self::fields(model).len() ==> (#[trigger] Self::fields(model)[i]).0
                    != KEY_PAGE_NO@ && Self::fields(model)[i].0 != KEY_PAGE_SIZE@,
    ;
}

/// A request payload with its pagination.
#[derive(Debug, Clone, PartialEq, Eq)]
pub struct ApiReq<T> {
    pub page_no: Option<usize>,
    pub page_size: Option<usize>,
    pub params: T,
}

/// The mathematical model of an `ApiReq`.
pub ghost struct ApiReqView<V> {
    pub page_no: Option<usize>,
    pub page_size: Option<usize>,
    pub params: V,
}

impl<T: View> View for ApiReq<T> {
    type V = ApiReqView<T::V>;

    open spec fn view(&self) -> ApiReqView<T::V> {
        ApiReqView { page_no: self.page_no, page_size: self.page_size, params: self.params@ }
    }
}

impl<V> ApiReqView<V> {
    /// The page number, 1 where none is given.
    pub open spec fn page(self) -> usize {
        match self.page_no {
            Some(page) => page,
            None => DEFAULT_PAGE_NO,
        }
    }

    /// The page size, 20 where none is given.
    pub open spec fn size(self) -> usize {
        match self.page_size {
            Some(size) => size,
            None => DEFAULT_PAGE_SIZE,
        }
    }
}

impl<T> ApiReq<T> {
    /// The page number, 1 where none is given.
    pub fn page(&self) -> (page: usize)
        ensures
            page == (match self.page_no {
                Some(page) => page,
                None => DEFAULT_PAGE_NO,
            }),
    {
        match self.page_no {
            Some(page) => page,
            None => DEFAULT_PAGE_NO,
        }
    }

    /// The page size, 20 where none is given.
    pub fn size(&self) -> (size: usize)
        ensures
            size == (match self.page_size {
                Some(size) => size,
                None => DEFAULT_PAGE_SIZE,
            }),
    {
        match self.page_size {
            Some(size) => size,
            None => DEFAULT_PAGE_SIZE,
        }
    }

    /// The payload of the request.
    pub fn params(&self) -> (params: &T)
        ensures
            *params == self.params,
    {
        &self.params
    }

    /// Wraps a payload with the default pagination.
    pub fn bound(params: T) -> (req: Self)
        ensures
            req.page_no == Some(DEFAULT_PAGE_NO),
            req.page_size == Some(DEFAULT_PAGE_SIZE),
            req.params == params,
    {
        ApiReq { page_no: Some(DEFAULT_PAGE_NO), page_size: Some(DEFAULT_PAGE_SIZE), params }
    }
}

/// The member that stands for an optional number: none for an absent one.
pub open spec fn optional_number_member(key: Seq<char>, number: Option<usize>) -> Seq<
    (Seq<char>, JsonView),
> {
    match number {
        Some(number) => seq![(key, JsonView::Unsigned(number as u64))],
        None => seq![],
    }
}

/// The members that stand for the pagination of a request.
pub open spec fn page_fields(page_no: Option<usize>, page_size: Option<usize>) -> Seq<
    (Seq<char>, JsonView),
> {
    optional_number_member(KEY_PAGE_NO@, page_no) + optional_number_member(
        KEY_PAGE_SIZE@,
        page_size,
    )
}

/// The document that stands for a request on the wire: the pagination that
/// the request names, then the members of its payload, in one object.
pub open spec fn spec_encode<T: Payload>(req: ApiReqView<T::V>) -> JsonView {
    JsonView::Object(page_fields(req.page_no, req.page_size) + T::fields(req.params))
}

fn push_optional_number(members: &mut Vec<(String, Json)>, key: &str, number: Option<usize>)
    ensures
        members_view(final(members)@) == members_view(old(members)@) + optional_number_member(
            key@,
            number,
        ),
{
    match number {
        Some(number) => {
            members.push((key.to_string(), Json::Unsigned(number as u64)));
            assert(members_view(members@) =~= members_view(old(members)@)
                + optional_number_member(key@, Some(number)));
        },
        None => {
            assert(members_view(members@) =~= members_view(old(members)@)
                + optional_number_member(key@, None));
        },
    }
}

/// The model of two lists of members, one after the other, is the model of
/// the first followed by the model of the second.
pub proof fn lemma_members_view_concat(left: Seq<(String, Json)>, right: Seq<(String, Json)>)
    ensures
        members_view(left + right) == members_view(left) + members_view(right),
{
    assert(members_view(left + right) =~= members_view(left) + members_view(right));
}

/// The request that a document stands for: the pagination it names, each
/// part absent where the document leaves it out, and the payload.
pub open spec fn spec_decode<T: Payload>(doc: JsonView) -> Result<ApiReqView<T::V>, Seq<char>> {
    match spec_optional_number_field(doc, KEY_PAGE_NO@) {
        Err(fault) => Err(fault),
        Ok(page_no) => match spec_optional_number_field(doc, KEY_PAGE_SIZE@) {
            Err(fault) => Err(fault),
            Ok(page_size) => match T::decoded(doc) {
                Err(fault) => Err(fault),
                Ok(params) => Ok(ApiReqView { page_no, page_size, params }),
            },
        },
    }
}

/// The request that binding makes of a payload: the payload under the
/// default pagination.
pub open spec fn bound_view<V>(params: V) -> ApiReqView<V> {
    ApiReqView { page_no: Some(DEFAULT_PAGE_NO), page_size: Some(DEFAULT_PAGE_SIZE), params }
}

/// What binding a parsed document yields: the payload it stands for under
/// the default pagination, whatever pagination the document names, or a
/// rejection with the client-error status and the complaint.
pub open spec fn spec_bind_document<T: Payload>(doc: JsonView) -> Result<
    ApiReqView<T::V>,
    (u16, Seq<char>),
> {
    match T::decoded(doc) {
        Ok(params) => Ok(bound_view(params)),
        Err(fault) => Err((STATUS_BAD_REQUEST, fault)),
    }
}

/// What binding the outcome of parsing yields.
pub open spec fn spec_bind_parsed<T: Payload>(parsed: Result<JsonView, Seq<char>>) -> Result<
    ApiReqView<T::V>,
    (u16, Seq<char>),
> {
    match parsed {
        Ok(doc) => spec_bind_document::<T>(doc),
        Err(fault) => Err((STATUS_BAD_REQUEST, fault)),
    }
}

/// What binding a request body yields. A body that is not UTF-8, a text
/// that is not JSON and a document of the wrong shape are each rejected
/// with the client-error status.
pub open spec fn spec_bind<T: Payload>(body: Seq<u8>) -> Result<
    ApiReqView<T::V>,
    (u16, Seq<char>),
> {
    match spec_read_text(body) {
        Ok(text) => spec_bind_parsed::<T>(json_parsed(text)),
        Err(fault) => Err((STATUS_BAD_REQUEST, fault)),
    }
}

/// The model of the outcome of binding.
pub open spec fn binding_view<T: View>(r: Result<ApiReq<T>, (u16, String)>) -> Result<
    ApiReqView<T::V>,
    (u16, Seq<char>),
> {
    match r {
        Ok(req) => Ok(req@),
        Err((status, fault)) => Err((status, fault@)),
    }
}

impl<T: Payload> ApiReq<T> {
    /// Writes the request as a JSON object.
    pub fn to_json(&self) -> (doc: Json)
        ensures
            doc@ == spec_encode::<T>(self@),
    {
        let mut members: Vec<(String, Json)> = Vec::new();
        assert(members_view(members@) =~= seq![]);
        push_optional_number(&mut members, KEY_PAGE_NO, self.page_no);
        push_optional_number(&mut members, KEY_PAGE_SIZE, self.page_size);
        let mut payload = self.params.to_fields();
        proof {
            lemma_members_view_concat(members@, payload@);
        }
        members.append(&mut payload);
        assert(members_view(members@) =~= page_fields(self.page_no, self.page_size) + T::fields(
            self.params@,
        ));
        Json::Object(members)
    }

    /// Reads a request out of a JSON object, with the pagination that the
    /// object names.
    pub fn from_json(doc: &Json) -> (r: Result<Self, String>)
        ensures
            r matches Ok(req) ==> spec_decode::<T>(doc@) == Ok::<ApiReqView<T::V>, Seq<char>>(req@),
            r matches Err(fault) ==> spec_decode::<T>(doc@) == Err::<ApiReqView<T::V>, Seq<char>>(
                fault@,
            ),
    {
        let page_no = match optional_number_field(doc, KEY_PAGE_NO) {
            Ok(page_no) => page_no,
            Err(fault) => {
                return Err(fault);
            },
        };
        let page_size = match optional_number_field(doc, KEY_PAGE_SIZE) {
            Ok(page_size) => page_size,
            Err(fault) => {
                return Err(fault);
            },
        };
        match T::from_json(doc) {
            Ok(params) => Ok(ApiReq { page_no, page_size, params }),
            Err(fault) => Err(fault),
        }
    }

    /// Binds a parsed document.
    pub fn from_document(doc: &Json) -> (r: Result<Self, (u16, String)>)
        ensures
            binding_view(r) == spec_bind_document::<T>(doc@),
    {
        match T::from_json(doc) {
            Ok(params) => Ok(ApiReq::bound(params)),
            Err(fault) => Err((STATUS_BAD_REQUEST, fault)),
        }
    }

    /// Binds the outcome of parsing a text as JSON.
    pub fn from_parsed(parsed: Result<Json, String>) -> (r: Result<Self, (u16, String)>)
        ensures
            binding_view(r) == spec_bind_parsed::<T>(super::json::parsed_view(parsed)),
    {
        match parsed {
            Ok(doc) => Self::from_document(&doc),
            Err(fault) => Err((STATUS_BAD_REQUEST, fault)),
        }
    }

    /// Binds a request body: reads it as UTF-8, parses the text as JSON and
    /// reads the payload out of the document.
    pub fn from_request(body: &[u8]) -> (r: Result<Self, (u16, String)>)
        ensures
            binding_view(r) == spec_bind::<T>(body@),
    {
        match read_text(body) {
            Ok(text) => Self::from_parsed(parse(text.as_str())),
            Err(fault) => Err((STATUS_BAD_REQUEST, fault)),
        }
    }
}

/// Binding the document that stands for a request gives back the
/// request's payload, under the default pagination.
pub proof fn lemma_binding_inverts_encoding<T: Payload>(req: ApiReqView<T::V>)
    ensures
        spec_bind_document::<T>(spec_encode::<T>(req)) == Ok::<ApiReqView<T::V>, (u16, Seq<char>)>(
            bound_view(req.params),
        ),
{
    T::decoded_inverts_fields(req.params, page_fields(req.page_no, req.page_size));
}

/// Whatever pagination a document names or leaves out, the request bound
/// from it has page 1 and page size 20, both present.
pub proof fn lemma_binding_applies_defaults<T: Payload>(doc: JsonView)
    ensures
        spec_bind_document::<T>(doc) matches Ok(req) ==> {
            &&& req.page_no == Some(DEFAULT_PAGE_NO)
            &&& req.page_size == Some(DEFAULT_PAGE_SIZE)
            &&& req.page() == 1
            &&& req.size() == 20
        },
{
}

/// Looking a name up skips members behind that bear other names.
pub proof fn lemma_lookup_skips_others(
    before: Seq<(Seq<char>, JsonView)>,
    behind: Seq<(Seq<char>, JsonView)>,
    key: Seq<char>,
)
    requires
        forall|i: int| 0 <= i < behind.len() ==> (#[trigger] behind[i]).0 != key,
    ensures
        lookup(before + behind, key) == lookup(before, key),
    decreases behind.len(),
{
    if behind.len() == 0 {
        assert(before + behind =~= before);
    } else {
        let all = before + behind;
        assert(all.last() == behind.last());
        assert(all.drop_last() =~= before + behind.drop_last());
        lemma_lookup_skips_others(before, behind.drop_last(), key);
    }
}

/// Looking the names of the pagination up in its members finds what the
/// request names, and nothing where it names nothing.
pub proof fn lemma_page_fields_read_back(page_no: Option<usize>, page_size: Option<usize>)
    ensures
        lookup(page_fields(page_no, page_size), KEY_PAGE_NO@) == (match page_no {
            Some(number) => Some(JsonView::Unsigned(number as u64)),
            None => None,
        }),
        lookup(page_fields(page_no, page_size), KEY_PAGE_SIZE@) == (match page_size {
            Some(number) => Some(JsonView::Unsigned(number as u64)),
            None => None,
        }),
{
    reveal_strlit("pageNo");
    reveal_strlit("pageSize");
    assert(KEY_PAGE_NO@.len() != KEY_PAGE_SIZE@.len());
    let first = optional_number_member(KEY_PAGE_NO@, page_no);
    let second = optional_number_member(KEY_PAGE_SIZE@, page_size);
    let all = first + second;
    assert(lookup(Seq::<(Seq<char>, JsonView)>::empty(), KEY_PAGE_NO@) is None);
    assert(lookup(Seq::<(Seq<char>, JsonView)>::empty(), KEY_PAGE_SIZE@) is None);
    if page_no is Some {
        assert(first.last() == (KEY_PAGE_NO@, JsonView::Unsigned(page_no->Some_0 as u64)));
        assert(first.drop_last() =~= Seq::<(Seq<char>, JsonView)>::empty());
    }
    if page_size is Some {
        assert(all.last() == (KEY_PAGE_SIZE@, JsonView::Unsigned(page_size->Some_0 as u64)));
        assert(all.drop_last() =~= first);
    } else {
        assert(all =~= first);
    }
}

/// Reading the document that stands for a request gives the request back:
/// its payload and the pagination it names.
pub proof fn lemma_decoding_inverts_encoding<T: Payload>(req: ApiReqView<T::V>)
    ensures
        spec_decode::<T>(spec_encode::<T>(req)) == Ok::<ApiReqView<T::V>, Seq<char>>(req),
{
    let pages = page_fields(req.page_no, req.page_size);
    T::decoded_inverts_fields(req.params, pages);
    T::fields_leave_pagination(req.params);
    lemma_lookup_skips_others(pages, T::fields(req.params), KEY_PAGE_NO@);
    lemma_lookup_skips_others(pages, T::fields(req.params), KEY_PAGE_SIZE@);
    lemma_page_fields_read_back(req.page_no, req.page_size);
}

/// A request read from a document that leaves the pagination out has page
/// 1 and page size 20.
pub proof fn lemma_omitted_pagination_reads_as_default<T: Payload>(doc: JsonView)
    ensures
        spec_decode::<T>(doc) matches Ok(req) ==> {
            &&& doc.member(KEY_PAGE_NO@) is None ==> req.page_no is None && req.page() == 1
            &&& doc.member(KEY_PAGE_SIZE@) is None ==> req.page_size is None && req.size() == 20
        },
{
}

} // verus!
