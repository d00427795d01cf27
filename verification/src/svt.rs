//! Pages as the remote source delivers them, the ways a fetch can fail, and
//! the client that knows where the pages live.

use vstd::prelude::*;
use vstd::string::StringExecFns;

verus! {

/// The base address under which the pages are found when nothing else is
/// asked for.
pub const DEFAULT_BASE_URL: &'static str = "https://www.svt.se/text-tv/api";

/// The envelope around a page.
#[derive(Clone, Debug, PartialEq, Eq)]
pub struct SvtResponse {
    pub status: String,
    pub data: Data,
}

/// One numbered page with its frames.
#[derive(Clone, Debug, PartialEq, Eq)]
pub struct Data {
    pub page_number: String,
    pub prev_page: String,
    pub next_page: String,
    pub sub_pages: Vec<SubPage>,
    pub meta: Meta,
}

/// When the page was last changed.
#[derive(Clone, Debug, PartialEq, Eq)]
pub struct Meta {
    pub updated: String,
}

/// One frame of a page. Only `alt_text` is read by the client; the other
/// fields are carried along as they came.
#[derive(Clone, Debug, PartialEq, Eq)]
pub struct SubPage {
    pub sub_page_number: String,
    pub gif_as_base64: String,
    pub image_map: String,
    pub alt_text: String,
}

/// Why a fetch failed, each with a text that describes the failure.
#[derive(Clone, Debug, PartialEq, Eq)]
pub enum FetchError {
    /// The request or its answer did not get through.
    Transport(String),
    /// The source answered with a status other than success.
    Protocol(String),
    /// The answer was not a page in the expected form.
    Decode(String),
}

/// The text of all frames, one after the other in the order of the frames,
/// with nothing between them.
pub open spec fn alt_text_of(pages: Seq<SubPage>) -> Seq<char>
    decreases pages.len(),
{
    if pages.len() == 0 {
        Seq::empty()
    } else {
        alt_text_of(pages.drop_last()) + pages.last().alt_text@
    }
}

/// The address of a page: the base address, a slash, the page identifier.
pub open spec fn page_url_text(base: Seq<char>, page: Seq<char>) -> Seq<char> {
    base + seq!['/'] + page
}

impl FetchError {
    /// The kind of failure that a finished request stands for. A status
    /// other than success is seen before the payload is read, so it comes
    /// first; a payload that could not be read comes next; whatever else
    /// went wrong lies with the transport.
    pub open spec fn classified(bad_status: bool, bad_payload: bool, detail: String) -> FetchError {
        if bad_status {
            FetchError::Protocol(detail)
        } else if bad_payload {
            FetchError::Decode(detail)
        } else {
            FetchError::Transport(detail)
        }
    }

    /// Sorts a failure into its kind, given whether the source answered
    /// with a status other than success, whether the payload could not be
    /// read, and the description of the failure.
    pub fn classify(bad_status: bool, bad_payload: bool, detail: String) -> (error: FetchError)
        ensures
            error == FetchError::classified(bad_status, bad_payload, detail),
    {
        if bad_status {
            FetchError::Protocol(detail)
        } else if bad_payload {
            FetchError::Decode(detail)
        } else {
            FetchError::Transport(detail)
        }
    }

    /// The description that the error carries.
    pub open spec fn detail_text(self) -> Seq<char> {
        match self {
            FetchError::Transport(detail) => detail@,
            FetchError::Protocol(detail) => detail@,
            FetchError::Decode(detail) => detail@,
        }
    }

    /// The description that the error carries.
    pub fn detail(&self) -> (detail: &String)
        ensures
            detail@ == self.detail_text(),
    {
        match self {
            FetchError::Transport(detail) => detail,
            FetchError::Protocol(detail) => detail,
            FetchError::Decode(detail) => detail,
        }
    }
}

/// Knows the base address under which the pages are found.
#[derive(Clone, Debug)]
pub struct SvtClient {
    base_url: String,
}

impl View for SvtClient {
    type V = Seq<char>;

    /// The base address.
    closed spec fn view(&self) -> Seq<char> {
        self.base_url@
    }
}

impl SvtClient {
    /// A client for the pages under `base_url`.
    pub fn new(base_url: String) -> (client: Self)
        ensures
            client@ == base_url@,
    {
        Self { base_url }
    }

    /// The address to request for the page `page`. Every identifier gets an
    /// address, the empty one too.
    pub fn page_url(&self, page: &String) -> (url: String)
        ensures
            url@ == page_url_text(self@, page@),
    {
        let mut url = self.base_url.clone();
        url.push('/');
        url.append(page.as_str());
        url
    }
}

/// The text of one frame alone is that frame's text.
pub proof fn lemma_alt_text_of_one(page: SubPage)
    ensures
        alt_text_of(seq![page]) == page.alt_text@,
{
    assert(seq![page].drop_last() =~= Seq::<SubPage>::empty());
    assert(alt_text_of(Seq::<SubPage>::empty()) =~= Seq::<char>::empty());
}

/// The text of frames in a row is the text of the first ones followed by
/// the text of the rest: the order of the frames is the order of their
/// texts, and nothing stands between them.
pub proof fn lemma_alt_text_of_concat(first: Seq<SubPage>, rest: Seq<SubPage>)
    ensures
        alt_text_of(first + rest) == alt_text_of(first) + alt_text_of(rest),
    decreases rest.len(),
{
    if rest.len() > 0 {
        assert((first + rest).drop_last() =~= first + rest.drop_last());
        lemma_alt_text_of_concat(first, rest.drop_last());
    }
}

/// The text of two frames is the first one's text followed by the second
/// one's.
pub proof fn lemma_alt_text_of_two(first: SubPage, second: SubPage)
    ensures
        alt_text_of(seq![first, second]) == first.alt_text@ + second.alt_text@,
{
    assert(seq![first, second] =~= seq![first] + seq![second]);
    lemma_alt_text_of_concat(seq![first], seq![second]);
    lemma_alt_text_of_one(first);
    lemma_alt_text_of_one(second);
}

} // verus!
