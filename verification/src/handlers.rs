//! The three request operations (create, list, redirect) and the replies
//! they give.

use vstd::prelude::*;
use vstd::string::*;

use crate::config::Config;
use crate::error::AppError;
use crate::models::{views, NewUrl, NewUrlView, Url, UrlView};
use crate::store::{
    accepts, after_insert, holds_code, lemma_insert_keeps_wf, lemma_row_with_code,
    most_recent_first, next_row, row_with_code, table_wf, UrlStore,
};
use crate::utils::{generate_short_code, is_short_code, DEFAULT_CODE_LENGTH};

verus! {

/// The body of a create request.
#[derive(Debug, PartialEq, Eq)]
pub struct CreateUrlRequest {
    pub original_url: String,
}

/// The create request under the name the route table uses for it.
pub type NewUrlRequest = CreateUrlRequest;

/// The body of the reply to a successful create request.
#[derive(Debug, PartialEq, Eq)]
pub struct CreatedUrl {
    pub original_url: String,
    pub short_code: String,
    /// The published link: base URL, a slash, the short code.
    pub short_url: String,
    pub created_at: u64,
}

/// The mathematical content of a [`CreatedUrl`].
pub ghost struct CreatedUrlView {
    pub original_url: Seq<char>,
    pub short_code: Seq<char>,
    pub short_url: Seq<char>,
    pub created_at: nat,
}

impl View for CreatedUrl {
    type V = CreatedUrlView;

    open spec fn view(&self) -> CreatedUrlView {
        CreatedUrlView {
            original_url: self.original_url@,
            short_code: self.short_code@,
            short_url: self.short_url@,
            created_at: self.created_at as nat,
        }
    }
}

/// What an operation answers: the status and what travels with it.
#[derive(Debug, PartialEq, Eq)]
pub enum HttpReply {
    /// 201, with the new record and its published link.
    Created(CreatedUrl),
    /// 200, with the records of the table.
    Listing(Vec<Url>),
    /// 302, with the target location.
    Found(String),
    /// 400, with a message for the client.
    BadRequest(String),
    /// 404, with a message for the client.
    NotFound(String),
    /// 500, with a message for the client.
    InternalServerError(String),
}

/// The mathematical content of an [`HttpReply`].
pub ghost enum ReplyView {
    Created(CreatedUrlView),
    Listing(Seq<UrlView>),
    Found(Seq<char>),
    BadRequest(Seq<char>),
    NotFound(Seq<char>),
    InternalServerError(Seq<char>),
}

impl View for HttpReply {
    type V = ReplyView;

    open spec fn view(&self) -> ReplyView {
        match self {
            HttpReply::Created(body) => ReplyView::Created(body@),
            HttpReply::Listing(records) => ReplyView::Listing(views(records@)),
            HttpReply::Found(location) => ReplyView::Found(location@),
            HttpReply::BadRequest(msg) => ReplyView::BadRequest(msg@),
            HttpReply::NotFound(msg) => ReplyView::NotFound(msg@),
            HttpReply::InternalServerError(msg) => ReplyView::InternalServerError(msg@),
        }
    }
}

/// The status code that goes with each kind of reply.
pub open spec fn status_of(reply: ReplyView) -> int {
    match reply {
        ReplyView::Created(_) => 201,
        ReplyView::Listing(_) => 200,
        ReplyView::Found(_) => 302,
        ReplyView::BadRequest(_) => 400,
        ReplyView::NotFound(_) => 404,
        ReplyView::InternalServerError(_) => 500,
    }
}

impl HttpReply {
    /// The status code of the reply.
    pub fn status(&self) -> (code: u16)
        ensures
            code == status_of(self@),
    {
        match self {
            HttpReply::Created(_) => 201,
            HttpReply::Listing(_) => 200,
            HttpReply::Found(_) => 302,
            HttpReply::BadRequest(_) => 400,
            HttpReply::NotFound(_) => 404,
            HttpReply::InternalServerError(_) => 500,
        }
    }
}

/// Whether `c` is white space: a code point with the Unicode property
/// `White_Space`.
pub open spec fn is_whitespace_char(c: char) -> bool {
    let u = c as u32;
    ||| 0x09 <= u <= 0x0d
    ||| u == 0x20
    ||| u == 0x85
    ||| u == 0xa0
    ||| u == 0x1680
    ||| 0x2000 <= u <= 0x200a
    ||| u == 0x2028
    ||| u == 0x2029
    ||| u == 0x202f
    ||| u == 0x205f
    ||| u == 0x3000
}

/// Whether the text is empty or white space throughout.
pub open spec fn is_blank_text(text: Seq<char>) -> bool {
    forall|i: int| 0 <= i < text.len() ==> is_whitespace_char(#[trigger] text[i])
}

/// Whether `c` is white space.
pub fn is_whitespace(c: char) -> (yes: bool)
    ensures
        yes == is_whitespace_char(c),
{
    let u: u32 = c as u32;
    (0x09 <= u && u <= 0x0d) || u == 0x20 || u == 0x85 || u == 0xa0 || u == 0x1680 || (0x2000 <= u
        && u <= 0x200a) || u == 0x2028 || u == 0x2029 || u == 0x202f || u == 0x205f || u == 0x3000
}

/// Whether the text is empty or white space throughout.
pub fn is_blank(text: &str) -> (blank: bool)
    ensures
        blank == is_blank_text(text@),
{
    for c in it: text.chars()
        invariant
            it.seq() == text@,
            forall|k: int| 0 <= k < it.index() ==> is_whitespace_char(#[trigger] text@[k]),
    {
        if !is_whitespace(c) {
            return false;
        }
    }
    true
}

/// The message for a create request without a URL.
pub open spec fn url_required_message() -> Seq<char> {
    "Original URL is required"@
}

/// The message for a create request that the table refused.
pub open spec fn create_failed_message() -> Seq<char> {
    "Error creating short URL"@
}

/// The message for a listing that the storage layer failed.
pub open spec fn list_failed_message() -> Seq<char> {
    "Error loading URLs"@
}

/// The message for a short code that no record carries.
pub open spec fn url_not_found_message() -> Seq<char> {
    "URL not found"@
}

/// The message for a lookup that the storage layer failed.
pub open spec fn redirect_failed_message() -> Seq<char> {
    "Error looking up URL"@
}

/// The published link of a short code: the base URL, a slash, the code.
pub open spec fn short_url_of(base_url: Seq<char>, short_code: Seq<char>) -> Seq<char> {
    base_url + "/"@ + short_code
}

/// The record to insert for a URL and the code drawn for it.
pub open spec fn new_url_of(original_url: Seq<char>, short_code: Seq<char>) -> NewUrlView {
    NewUrlView { original_url, short_code }
}

/// The body of the reply that reports a stored row.
pub open spec fn created_body(row: UrlView, base_url: Seq<char>) -> CreatedUrlView {
    CreatedUrlView {
        original_url: row.original_url,
        short_code: row.short_code,
        short_url: short_url_of(base_url, row.short_code),
        created_at: row.created_at,
    }
}

/// The reply to a create request for `original_url` for which
/// `short_code` was drawn, against a table with the given rows.
pub open spec fn create_reply_of(
    rows: Seq<UrlView>,
    base_url: Seq<char>,
    original_url: Seq<char>,
    short_code: Seq<char>,
    now: nat,
) -> ReplyView {
    if is_blank_text(original_url) {
        ReplyView::BadRequest(url_required_message())
    } else if accepts(rows, short_code) {
        ReplyView::Created(
            created_body(next_row(rows, new_url_of(original_url, short_code), now), base_url),
        )
    } else {
        ReplyView::InternalServerError(create_failed_message())
    }
}

/// The table after a create request: one row longer exactly when the reply
/// is `Created`, unchanged otherwise.
pub open spec fn rows_after_create(
    rows: Seq<UrlView>,
    original_url: Seq<char>,
    short_code: Seq<char>,
    now: nat,
) -> Seq<UrlView> {
    if is_blank_text(original_url) {
        rows
    } else {
        after_insert(rows, new_url_of(original_url, short_code), now)
    }
}

/// The reply to a redirect request for `code`.
pub open spec fn redirect_reply_of(rows: Seq<UrlView>, code: Seq<char>) -> ReplyView {
    match row_with_code(rows, code) {
        Some(row) => ReplyView::Found(row.original_url),
        None => ReplyView::NotFound(url_not_found_message()),
    }
}

/// Checks the one rule on a submitted URL: it must not be empty or white
/// space throughout.
pub fn validate_original_url(original_url: &str) -> (result: Result<(), AppError>)
    ensures
        is_blank_text(original_url@) ==> (result matches Err(AppError::InvalidInput(msg)) && msg@
            == url_required_message()),
        !is_blank_text(original_url@) ==> result is Ok,
{
    if is_blank(original_url) {
        Err(AppError::InvalidInput(String::from_str("Original URL is required")))
    } else {
        Ok(())
    }
}

/// Composes the published link of a short code.
pub fn short_url(base_url: &str, short_code: &str) -> (link: String)
    ensures
        link@ == short_url_of(base_url@, short_code@),
{
    String::from_str(base_url).concat("/").concat(short_code)
}

/// Turns the outcome of an insertion into the reply to the create request:
/// 201 with the stored row and its published link, or 500 whatever the
/// storage error was.
pub fn create_reply(outcome: Result<Url, AppError>, base_url: &str) -> (reply: HttpReply)
    ensures
        reply@ == (match outcome {
            Ok(row) => ReplyView::Created(created_body(row@, base_url@)),
            Err(_) => ReplyView::InternalServerError(create_failed_message()),
        }),
{
    match outcome {
        Ok(row) => {
            let link = short_url(base_url, row.short_code.as_str());
            HttpReply::Created(
                CreatedUrl {
                    original_url: row.original_url,
                    short_code: row.short_code,
                    short_url: link,
                    created_at: row.created_at,
                },
            )
        },
        Err(_) => HttpReply::InternalServerError(String::from_str("Error creating short URL")),
    }
}

/// Turns the outcome of loading the table into the reply to the list
/// request: 200 with the records as loaded, or 500 whatever the storage
/// error was.
pub fn list_reply(outcome: Result<Vec<Url>, AppError>) -> (reply: HttpReply)
    ensures
        reply@ == (match outcome {
            Ok(records) => ReplyView::Listing(views(records@)),
            Err(_) => ReplyView::InternalServerError(list_failed_message()),
        }),
{
    match outcome {
        Ok(records) => HttpReply::Listing(records),
        Err(_) => HttpReply::InternalServerError(String::from_str("Error loading URLs")),
    }
}

/// Turns the outcome of a lookup into the reply to the redirect request:
/// 302 to the stored URL, taken verbatim; 404 where the lookup found no
/// row; 500 for any other failure, so that a storage failure is never
/// reported as an unknown code.
pub fn redirect_reply(outcome: Result<Url, AppError>) -> (reply: HttpReply)
    ensures
        reply@ == (match outcome {
            Ok(row) => ReplyView::Found(row@.original_url),
            Err(AppError::NotFound(_)) => ReplyView::NotFound(url_not_found_message()),
            Err(_) => ReplyView::InternalServerError(redirect_failed_message()),
        }),
{
    match outcome {
        Ok(row) => HttpReply::Found(row.original_url),
        Err(AppError::NotFound(_)) => HttpReply::NotFound(String::from_str("URL not found")),
        Err(_) => HttpReply::InternalServerError(String::from_str("Error looking up URL")),
    }
}

/// The first step of the create operation with the short code already
/// drawn: decides between refusing the request and inserting a record.
///
/// A blank URL yields the 400 reply. Any other URL yields the record to
/// insert: the URL as submitted, under `short_code`.
pub fn prepare_create_with_code(item: &CreateUrlRequest, short_code: String) -> (step: Result<
    NewUrl,
    HttpReply,
>)
    ensures
        is_blank_text(item.original_url@) ==> (step matches Err(reply) && reply@
            == ReplyView::BadRequest(url_required_message())),
        !is_blank_text(item.original_url@) ==> (step matches Ok(new_url) && new_url@
            == new_url_of(item.original_url@, short_code@)),
{
    match validate_original_url(item.original_url.as_str()) {
        Ok(()) => Ok(NewUrl { original_url: item.original_url.clone(), short_code }),
        Err(_) => Err(HttpReply::BadRequest(String::from_str("Original URL is required"))),
    }
}

/// The first step of the create operation: validates the URL and, where
/// it is acceptable, draws a random short code of the default length.
///
/// A blank URL yields the 400 reply, and no code is drawn. Any other URL
/// yields the record to insert: the URL as submitted, under a well-formed
/// code of the default length.
pub fn prepare_create(item: &CreateUrlRequest) -> (step: Result<NewUrl, HttpReply>)
    ensures
        is_blank_text(item.original_url@) ==> (step matches Err(reply) && reply@
            == ReplyView::BadRequest(url_required_message())),
        !is_blank_text(item.original_url@) ==> (step matches Ok(new_url) && new_url@.original_url
            == item.original_url@ && is_short_code(
            new_url@.short_code,
            DEFAULT_CODE_LENGTH as nat,
        )),
{
    if is_blank(item.original_url.as_str()) {
        return Err(HttpReply::BadRequest(String::from_str("Original URL is required")));
    }
    match generate_short_code(DEFAULT_CODE_LENGTH) {
        Ok(short_code) => Ok(NewUrl { original_url: item.original_url.clone(), short_code }),
        Err(_) => Err(HttpReply::InternalServerError(String::from_str("Error creating short URL"))),
    }
}

/// The create operation with the short code already drawn.
///
/// A blank URL is refused with 400 and nothing is stored. Otherwise the
/// URL is inserted under `short_code`: on success the reply is 201 and the
/// table has gained exactly that row; where the table refuses the row the
/// reply is 500 and the table is unchanged. Nothing is retried.
pub fn create_with_code(
    store: &mut UrlStore,
    config: &Config,
    item: &CreateUrlRequest,
    short_code: String,
    now: u64,
) -> (reply: HttpReply)
    ensures
        table_wf(final(store)@),
        reply@ == create_reply_of(
            old(store)@,
            config.base_url@,
            item.original_url@,
            short_code@,
            now as nat,
        ),
        final(store)@ == rows_after_create(
            old(store)@,
            item.original_url@,
            short_code@,
            now as nat,
        ),
{
    match prepare_create_with_code(item, short_code) {
        Ok(new_url) => {
            let outcome = store.insert(new_url, now);
            create_reply(outcome, config.base_url.as_str())
        },
        Err(reply) => {
            store.table_invariant();
            reply
        },
    }
}

/// Handles a create request: validates the URL, draws a random short code
/// of the default length, and inserts the record.
///
/// A blank URL is answered with 400 and nothing is stored. Otherwise the
/// reply and the table are those of [`create_with_code`] for some
/// well-formed code of the default length: 201 with that code where the
/// table accepts it, 500 and an unchanged table where it does not.
pub fn create_url_handler(
    store: &mut UrlStore,
    config: &Config,
    item: &CreateUrlRequest,
    now: u64,
) -> (reply: HttpReply)
    ensures
        table_wf(final(store)@),
        is_blank_text(item.original_url@) ==> reply@ == ReplyView::BadRequest(
            url_required_message(),
        ) && final(store)@ == old(store)@,
        !is_blank_text(item.original_url@) ==> exists|code: Seq<char>|
            {
                &&& is_short_code(code, DEFAULT_CODE_LENGTH as nat)
                &&& #[trigger] create_reply_of(
                    old(store)@,
                    config.base_url@,
                    item.original_url@,
                    code,
                    now as nat,
                ) == reply@
                &&& final(store)@ == rows_after_create(
                    old(store)@,
                    item.original_url@,
                    code,
                    now as nat,
                )
            },
        reply@ matches ReplyView::Created(body) ==> {
            &&& body.original_url == item.original_url@
            &&& is_short_code(body.short_code, DEFAULT_CODE_LENGTH as nat)
            &&& body.short_url == short_url_of(config.base_url@, body.short_code)
            &&& final(store)@.len() == old(store)@.len() + 1
            &&& final(store)@.last().short_code == body.short_code
            &&& final(store)@.last().original_url == body.original_url
        },
        !(reply@ is Created) ==> final(store)@ == old(store)@,
{
    match prepare_create(item) {
        Ok(new_url) => {
            let ghost code = new_url@.short_code;
            let outcome = store.insert(new_url, now);
            let reply = create_reply(outcome, config.base_url.as_str());
            assert(reply@ == create_reply_of(
                old(store)@,
                config.base_url@,
                item.original_url@,
                code,
                now as nat,
            ));
            reply
        },
        Err(reply) => {
            store.table_invariant();
            reply
        },
    }
}

/// Handles a list request: all records, the most recent first.
pub fn list_urls_handler(store: &UrlStore) -> (reply: HttpReply)
    ensures
        reply@ == ReplyView::Listing(most_recent_first(store@)),
{
    list_reply(Ok(store.list_all()))
}

/// Handles a redirect request: 302 to the URL stored under `code`, or 404
/// where no record carries the code.
pub fn redirect_handler(store: &UrlStore, code: &str) -> (reply: HttpReply)
    ensures
        reply@ == redirect_reply_of(store@, code@),
{
    redirect_reply(store.find_by_code(code))
}

/// A create request that is answered with 201 reports a code that no row
/// carried before, and the table gains exactly the row it reports.
pub proof fn lemma_created_row(
    rows: Seq<UrlView>,
    base_url: Seq<char>,
    original_url: Seq<char>,
    short_code: Seq<char>,
    now: nat,
)
    requires
        table_wf(rows),
        create_reply_of(rows, base_url, original_url, short_code, now) is Created,
    ensures
        !holds_code(rows, short_code),
        rows_after_create(rows, original_url, short_code, now) == rows.push(
            next_row(rows, new_url_of(original_url, short_code), now),
        ),
        table_wf(rows_after_create(rows, original_url, short_code, now)),
{
    lemma_insert_keeps_wf(rows, new_url_of(original_url, short_code), now);
}

/// Round trip: once a create request for a URL is answered with 201, a
/// redirect request for the code it was stored under leads to that URL.
pub proof fn lemma_create_then_redirect(
    rows: Seq<UrlView>,
    base_url: Seq<char>,
    original_url: Seq<char>,
    short_code: Seq<char>,
    now: nat,
)
    requires
        table_wf(rows),
        create_reply_of(rows, base_url, original_url, short_code, now) is Created,
    ensures
        redirect_reply_of(rows_after_create(rows, original_url, short_code, now), short_code)
            == ReplyView::Found(original_url),
{
    lemma_created_row(rows, base_url, original_url, short_code, now);
    let after = rows_after_create(rows, original_url, short_code, now);
    lemma_row_with_code(after, rows.len() as int);
}

/// Records stay: whatever a later create request does, a code that led to
/// a URL before still leads to the same URL afterwards.
pub proof fn lemma_create_keeps_redirects(
    rows: Seq<UrlView>,
    original_url: Seq<char>,
    short_code: Seq<char>,
    now: nat,
    code: Seq<char>,
)
    requires
        table_wf(rows),
        holds_code(rows, code),
    ensures
        redirect_reply_of(rows_after_create(rows, original_url, short_code, now), code)
            == redirect_reply_of(rows, code),
{
    let after = rows_after_create(rows, original_url, short_code, now);
    if !is_blank_text(original_url) {
        lemma_insert_keeps_wf(rows, new_url_of(original_url, short_code), now);
    }
    let i = choose|i: int| 0 <= i < rows.len() && (#[trigger] rows[i]).short_code == code;
    lemma_row_with_code(rows, i);
    lemma_row_with_code(after, i);
}

/// Uniqueness: a create request whose code is already in use is answered
/// with 500 and stores nothing, so no code is ever stored twice.
pub proof fn lemma_code_in_use_is_refused(
    rows: Seq<UrlView>,
    base_url: Seq<char>,
    original_url: Seq<char>,
    short_code: Seq<char>,
    now: nat,
)
    requires
        holds_code(rows, short_code),
        !is_blank_text(original_url),
    ensures
        create_reply_of(rows, base_url, original_url, short_code, now)
            == ReplyView::InternalServerError(create_failed_message()),
        rows_after_create(rows, original_url, short_code, now) == rows,
{
}

/// Uniqueness over two requests: when a create request was answered with
/// 201, a second one for which the same code is drawn does not succeed,
/// and the table keeps the one row with that code.
pub proof fn lemma_colliding_creates(
    rows: Seq<UrlView>,
    base_url: Seq<char>,
    first_url: Seq<char>,
    second_url: Seq<char>,
    short_code: Seq<char>,
    first_now: nat,
    second_now: nat,
)
    requires
        table_wf(rows),
        create_reply_of(rows, base_url, first_url, short_code, first_now) is Created,
    ensures
        ({
            let between = rows_after_create(rows, first_url, short_code, first_now);
            &&& !(create_reply_of(between, base_url, second_url, short_code, second_now)
                is Created)
            &&& rows_after_create(between, second_url, short_code, second_now) == between
            &&& redirect_reply_of(between, short_code) == ReplyView::Found(first_url)
        }),
{
    lemma_created_row(rows, base_url, first_url, short_code, first_now);
    let between = rows_after_create(rows, first_url, short_code, first_now);
    lemma_create_then_redirect(rows, base_url, first_url, short_code, first_now);
}

/// Ordering: after three create requests that were answered with 201, one
/// after the other, the listing starts with the third URL, then the
/// second, then the first, followed by what was listed before.
pub proof fn lemma_three_creates_listed_latest_first(
    rows: Seq<UrlView>,
    base_url: Seq<char>,
    urls: (Seq<char>, Seq<char>, Seq<char>),
    codes: (Seq<char>, Seq<char>, Seq<char>),
    nows: (nat, nat, nat),
)
    requires
        table_wf(rows),
        create_reply_of(rows, base_url, urls.0, codes.0, nows.0) is Created,
        create_reply_of(
            rows_after_create(rows, urls.0, codes.0, nows.0),
            base_url,
            urls.1,
            codes.1,
            nows.1,
        ) is Created,
        create_reply_of(
            rows_after_create(
                rows_after_create(rows, urls.0, codes.0, nows.0),
                urls.1,
                codes.1,
                nows.1,
            ),
            base_url,
            urls.2,
            codes.2,
            nows.2,
        ) is Created,
    ensures
        ({
            let first = rows_after_create(rows, urls.0, codes.0, nows.0);
            let second = rows_after_create(first, urls.1, codes.1, nows.1);
            let third = rows_after_create(second, urls.2, codes.2, nows.2);
            let listing = most_recent_first(third);
            &&& listing.len() == rows.len() + 3
            &&& listing[0].original_url == urls.2 && listing[0].short_code == codes.2
            &&& listing[1].original_url == urls.1 && listing[1].short_code == codes.1
            &&& listing[2].original_url == urls.0 && listing[2].short_code == codes.0
            &&& listing.skip(3) == most_recent_first(rows)
        }),
{
    let first = rows_after_create(rows, urls.0, codes.0, nows.0);
    let second = rows_after_create(first, urls.1, codes.1, nows.1);
    lemma_created_row(rows, base_url, urls.0, codes.0, nows.0);
    lemma_created_row(first, base_url, urls.1, codes.1, nows.1);
    lemma_created_row(second, base_url, urls.2, codes.2, nows.2);
}

} // verus!
