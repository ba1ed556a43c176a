use vstd::prelude::*;
use vstd::string::StringExecFns;
use vstd::string::StringSliceAdditionalSpecFns;

verus! {

/// A JSON value of `serde_json`. The library carries one through as it came
/// and never looks inside.
#[verifier::external_type_specification]
#[verifier::external_body]
pub struct ExJsonValue(serde_json::Value);

/// `Clone` of `serde_json::Value`. Nothing is stated of the copy.
pub assume_specification[ <serde_json::Value as Clone>::clone ](
    value: &serde_json::Value,
) -> serde_json::Value;

/// One candidate that the audio lookup service offers for a query.
#[derive(Default, Debug, PartialEq)]
pub struct GeneratedType {
    pub id: String,
    /// The length of the recording, in seconds.
    pub duration: i64,
    /// Title and artist, as the service composed them.
    pub tit_art: String,
    /// The candidate's resource locator.
    pub url: String,
    /// What else the service sent along.
    pub extra: serde_json::Value,
}

/// The candidates of an answer, in the order in which the service sent them.
#[derive(Default, Debug, Clone, PartialEq)]
pub struct Audios {
    pub field: Vec<GeneratedType>,
}

/// An answer of the audio lookup service.
#[derive(Default, Debug, Clone, PartialEq)]
pub struct SliderResult {
    pub audios: Audios,
}

/// A byte that stays as it is in a percent-encoded text: an ASCII letter or
/// digit, or one of `-`, `.`, `_`, `~`.
pub open spec fn is_unreserved(b: u8) -> bool {
    ||| 0x30 <= b <= 0x39
    ||| 0x41 <= b <= 0x5A
    ||| 0x61 <= b <= 0x7A
    ||| b == 0x2D
    ||| b == 0x2E
    ||| b == 0x5F
    ||| b == 0x7E
}

/// The upper-case hexadecimal digit of a value below sixteen.
pub open spec fn hex_digit(d: u8) -> char {
    if d < 10 {
        ((0x30 + d) as u8) as char
    } else {
        ((0x41 - 10 + d) as u8) as char
    }
}

/// One byte, percent-encoded: itself where it is unreserved, else `%` and its
/// two hexadecimal digits.
pub open spec fn escaped_byte(b: u8) -> Seq<char> {
    if is_unreserved(b) {
        seq![b as char]
    } else {
        seq!['%', hex_digit(b / 16), hex_digit(b % 16)]
    }
}

/// Bytes, percent-encoded one by one.
pub open spec fn percent_encoded(bytes: Seq<u8>) -> Seq<char>
    decreases bytes.len(),
{
    if bytes.len() == 0 {
        Seq::empty()
    } else {
        percent_encoded(bytes.drop_last()) + escaped_byte(bytes.last())
    }
}

/// `urlencoding::encode`: the percent-encoding of the UTF-8 bytes of `text`.
/// Every byte but the unreserved ones comes out as `%` and two upper-case
/// hexadecimal digits.
#[verifier::external_body]
pub(crate) fn url_encode(text: &str) -> (encoded: String)
    ensures
        encoded@ == percent_encoded(text.spec_bytes()),
{
    urlencoding::encode(text).into_owned()
}

/// A candidate as plain values: what the library reads of it.
pub struct CandidateView {
    pub id: Seq<char>,
    pub duration: int,
    pub tit_art: Seq<char>,
    pub url: Seq<char>,
}

impl View for GeneratedType {
    type V = CandidateView;

    open spec fn view(&self) -> CandidateView {
        CandidateView {
            id: self.id@,
            duration: self.duration as int,
            tit_art: self.tit_art@,
            url: self.url@,
        }
    }
}

impl Clone for GeneratedType {
    /// A copy with the same identifier, duration, title and locator.
    fn clone(&self) -> (copy: Self)
        ensures
            copy@ == self@,
    {
        GeneratedType {
            id: self.id.clone(),
            duration: self.duration,
            tit_art: self.tit_art.clone(),
            url: self.url.clone(),
            extra: self.extra.clone(),
        }
    }
}

/// The candidates of an answer as plain values.
pub open spec fn candidate_views(candidates: Seq<GeneratedType>) -> Seq<CandidateView> {
    candidates.map_values(|candidate: GeneratedType| candidate@)
}

impl View for SliderResult {
    type V = Seq<CandidateView>;

    open spec fn view(&self) -> Seq<CandidateView> {
        candidate_views(self.audios.field@)
    }
}

/// The decimal digit of a value below ten.
pub open spec fn digit_char(d: int) -> char {
    ((0x30 + d) as u8) as char
}

/// The decimal digits of a natural number, without leading zeros.
pub open spec fn natural_digits(n: nat) -> Seq<char>
    decreases n,
{
    if n < 10 {
        seq![digit_char(n as int)]
    } else {
        natural_digits(n / 10).push(digit_char((n % 10) as int))
    }
}

/// An integer in decimal, with `-` in front where it is negative.
pub open spec fn decimal(n: int) -> Seq<char> {
    if n < 0 {
        seq!['-'] + natural_digits((-n) as nat)
    } else {
        natural_digits(n as nat)
    }
}

/// Appends the decimal digits of `n` to `out`.
fn push_natural(out: &mut String, n: u64)
    ensures
        final(out)@ == old(out)@ + natural_digits(n as nat),
    decreases n,
{
    if n >= 10 {
        push_natural(out, n / 10);
    }
    let d: u8 = (n % 10) as u8;
    out.push((0x30u8 + d) as char);
    assert(final(out)@ =~= old(out)@ + natural_digits(n as nat));
}

/// Appends `n` in decimal to `out`.
pub fn push_decimal(out: &mut String, n: i64)
    ensures
        final(out)@ == old(out)@ + decimal(n as int),
{
    if n < 0 {
        out.push('-');
        let magnitude: u64 = ((-(n + 1)) as u64) + 1;
        push_natural(out, magnitude);
        assert(final(out)@ =~= old(out)@ + decimal(n as int));
    } else {
        push_natural(out, n as u64);
    }
}

/// The address at which the lookup service answers a query for `title`.
pub open spec fn lookup_address(host: Seq<char>, title: Seq<char>) -> Seq<char> {
    host + "/vk_auth.php?q="@ + percent_encoded(vstd::utf8::encode_utf8(title))
}

/// The address from which a candidate's audio is downloaded.
pub open spec fn download_address(host: Seq<char>, candidate: CandidateView) -> Seq<char> {
    host + "/download/"@ + candidate.id + "/"@ + decimal(candidate.duration) + "/"@
        + candidate.url + "/"@ + percent_encoded(vstd::utf8::encode_utf8(candidate.tit_art))
        + ".mp3?extra=null"@
}

/// The path of the file that holds the audio of `title`.
pub open spec fn audio_path(title: Seq<char>) -> Seq<char> {
    "download/"@ + title + ".mp3"@
}

/// The address at which the lookup service at `host` is asked for `title`:
/// the title is the query, percent-encoded.
pub fn lookup_url(host: &str, title: &str) -> (url: String)
    ensures
        url@ == lookup_address(host@, title@),
{
    let mut url = host.to_owned();
    url.append("/vk_auth.php?q=");
    let query = url_encode(title);
    url.append(query.as_str());
    url
}

/// The address from which the service at `host` hands out the audio of
/// `candidate`.
pub fn download_locator(host: &str, candidate: &GeneratedType) -> (url: String)
    ensures
        url@ == download_address(host@, candidate@),
{
    let mut url = host.to_owned();
    url.append("/download/");
    url.append(candidate.id.as_str());
    url.append("/");
    push_decimal(&mut url, candidate.duration);
    url.append("/");
    url.append(candidate.url.as_str());
    url.append("/");
    let name = url_encode(candidate.tit_art.as_str());
    url.append(name.as_str());
    url.append(".mp3?extra=null");
    url
}

/// The path under which the audio of the cleaned title `title` is saved.
pub fn destination_path(title: &str) -> (path: String)
    ensures
        path@ == audio_path(title@),
{
    let mut path = "download/".to_owned();
    path.append(title);
    path.append(".mp3");
    path
}

/// Why a title gets no download.
#[derive(Clone, Copy, Debug, PartialEq, Eq)]
pub enum LookupParseError {
    /// The answer of the lookup service did not have the expected shape.
    Malformed,
    /// The answer held no candidate.
    NoCandidates,
}

/// One download: where the audio comes from and where it is saved.
#[derive(Clone, Debug, PartialEq, Eq)]
pub struct Download {
    pub url: String,
    pub path: String,
}

/// A download as plain values.
pub struct DownloadView {
    pub url: Seq<char>,
    pub path: Seq<char>,
}

impl View for Download {
    type V = DownloadView;

    open spec fn view(&self) -> DownloadView {
        DownloadView { url: self.url@, path: self.path@ }
    }
}

/// The candidates of an optional answer as plain values.
pub open spec fn answer_view(answer: Option<&SliderResult>) -> Option<Seq<CandidateView>> {
    match answer {
        Some(result) => Some(result@),
        None => None,
    }
}

/// A plan as plain values.
pub open spec fn plan_view(plan: Result<Download, LookupParseError>) -> Result<
    DownloadView,
    LookupParseError,
> {
    match plan {
        Ok(download) => Ok(download@),
        Err(error) => Err(error),
    }
}

/// What is done for the cleaned title `title` once the lookup service has
/// answered: `None` stands for an answer that could not be read. The first
/// candidate is the one downloaded; without one the title is skipped.
pub open spec fn planned(
    host: Seq<char>,
    title: Seq<char>,
    answer: Option<Seq<CandidateView>>,
) -> Result<DownloadView, LookupParseError> {
    match answer {
        None => Err(LookupParseError::Malformed),
        Some(candidates) => if candidates.len() == 0 {
            Err(LookupParseError::NoCandidates)
        } else {
            Ok(DownloadView { url: download_address(host, candidates[0]), path: audio_path(title) })
        },
    }
}

/// The candidate that is downloaded: the first that the service sent.
pub fn first_candidate(result: &SliderResult) -> (first: Option<&GeneratedType>)
    ensures
        result@.len() == 0 ==> first is None,
        result@.len() > 0 ==> first == Some(&result.audios.field@[0]),
{
    if result.audios.field.len() == 0 {
        None
    } else {
        Some(&result.audios.field[0])
    }
}

/// Decides what is done for the cleaned title `title`, as `planned` states.
pub fn plan_download(host: &str, title: &str, answer: Option<&SliderResult>) -> (plan: Result<
    Download,
    LookupParseError,
>)
    ensures
        plan_view(plan) == planned(host@, title@, answer_view(answer)),
{
    let result = match answer {
        None => {
            return Err(LookupParseError::Malformed);
        },
        Some(result) => result,
    };
    match first_candidate(result) {
        None => Err(LookupParseError::NoCandidates),
        Some(candidate) => Ok(
            Download { url: download_locator(host, candidate), path: destination_path(title) },
        ),
    }
}

} // verus!
