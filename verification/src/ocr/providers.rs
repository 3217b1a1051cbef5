//! The vision-model providers, the order they are tried in, and what their
//! answers mean.
use vstd::prelude::*;
use crate::duration::Duration;
use crate::ocr::{answer_time, parsed_as, ExtractError};
use crate::sheets::utils::index_of_from;
use crate::text::{lower_ascii, trim};

verus! {

/// A provider of a vision model.
#[derive(Debug, PartialEq, Eq, Structural, Clone, Copy)]
pub enum Provider {
    OpenRouter,
    Groq,
}

/// The order in which providers are tried when none is configured.
pub const DEFAULT_PROVIDER_ORDER: &'static str = "openrouter,groq";

/// The provider that a word of the provider order names: the word without
/// surrounding white space, in ASCII lowercase, must be `openrouter` or `groq`.
pub open spec fn provider_of(word: Seq<char>) -> Option<Provider> {
    let w = lower_ascii(trim(word));
    if w == "openrouter"@ {
        Some(Provider::OpenRouter)
    } else if w == "groq"@ {
        Some(Provider::Groq)
    } else {
        None
    }
}

/// The providers that a comma-separated order names, in order; words that name
/// none are skipped.
pub open spec fn provider_order(s: Seq<char>) -> Seq<Provider>
    decreases s.len(),
{
    match index_of_from(s, ',', 0) {
        None => match provider_of(s) {
            Some(p) => seq![p],
            None => Seq::empty(),
        },
        Some(i) => {
            let head = match provider_of(s.subrange(0, i)) {
                Some(p) => seq![p],
                None => Seq::<Provider>::empty(),
            };
            if 0 <= i < s.len() {
                head + provider_order(s.subrange(i + 1, s.len() as int))
            } else {
                head
            }
        },
    }
}

proof fn lemma_index_of_from_bounds(s: Seq<char>, c: char, from: int)
    ensures
        index_of_from(s, c, from) matches Some(i) ==> from <= i < s.len() && s[i] == c,
    decreases s.len() - from,
{
    if 0 <= from < s.len() && s[from] != c {
        lemma_index_of_from_bounds(s, c, from + 1);
    }
}

fn provider_of_word(word: &Vec<char>) -> (r: Option<Provider>)
    ensures
        r == provider_of(word@),
{
    let w = crate::text::lower_ascii_chars(&crate::text::trim_chars(word));
    let openrouter: Vec<char> = vec!['o', 'p', 'e', 'n', 'r', 'o', 'u', 't', 'e', 'r'];
    let groq: Vec<char> = vec!['g', 'r', 'o', 'q'];
    proof {
        reveal_strlit("openrouter");
        reveal_strlit("groq");
    }
    assert(openrouter@ =~= "openrouter"@);
    assert(groq@ =~= "groq"@);
    if same_chars(&w, &openrouter) {
        Some(Provider::OpenRouter)
    } else if same_chars(&w, &groq) {
        Some(Provider::Groq)
    } else {
        None
    }
}

fn same_chars(a: &Vec<char>, b: &Vec<char>) -> (r: bool)
    ensures
        r == (a@ == b@),
{
    if a.len() != b.len() {
        return false;
    }
    let mut i: usize = 0;
    while i < a.len()
        invariant
            i <= a@.len() == b@.len(),
            forall|k: int| 0 <= k < i ==> a@[k] == b@[k],
        decreases a@.len() - i,
    {
        if a[i] != b[i] {
            return false;
        }
        i = i + 1;
    }
    assert(a@ =~= b@);
    true
}

/// The providers that a comma-separated order names, in order: each word
/// without surrounding white space and in ASCII lowercase, `openrouter` or
/// `groq`; other words are skipped.
pub fn parse_provider_order(raw: &str) -> (r: Vec<Provider>)
    ensures
        r@ == provider_order(raw@),
{
    let mut rest = crate::text::chars_of(raw);
    let mut out: Vec<Provider> = Vec::new();
    loop
        invariant
            provider_order(raw@) == out@ + provider_order(rest@),
        decreases rest@.len(),
    {
        let n = rest.len();
        match crate::sheets::utils::index_of(&rest, ',') {
            None => {
                match provider_of_word(&rest) {
                    Some(p) => out.push(p),
                    None => {},
                }
                return out;
            },
            Some(i) => {
                proof {
                    lemma_index_of_from_bounds(rest@, ',', 0);
                }
                let word = crate::sheets::utils::sub_chars(&rest, 0, i);
                let ghost before = out@;
                match provider_of_word(&word) {
                    Some(p) => out.push(p),
                    None => {},
                }
                let next = crate::sheets::utils::sub_chars(&rest, i + 1, n);
                proof {
                    assert(provider_order(rest@) == (match provider_of(rest@.subrange(0, i as int)) {
                        Some(p) => seq![p],
                        None => Seq::<Provider>::empty(),
                    }) + provider_order(next@));
                    assert(before + provider_order(rest@) =~= out@ + provider_order(next@));
                }
                rest = next;
            },
        }
    }
}

/// Whether trying the next provider may help after this error: a refusal for
/// now, a failure of the HTTP client, or one of the statuses 429, 500, 502, 503, 504.
pub open spec fn retryable(e: ExtractError) -> bool {
    match e {
        ExtractError::RateLimited(_) => true,
        ExtractError::Http(_) => true,
        ExtractError::ProviderStatus(_, code) => code == 429 || code == 502 || code == 503 || code
            == 504 || code == 500,
        _ => false,
    }
}

/// Whether trying the next provider may help after this error.
pub fn is_retryable(e: &ExtractError) -> (r: bool)
    ensures
        r == retryable(*e),
{
    match e {
        ExtractError::RateLimited(_) => true,
        ExtractError::Http(_) => true,
        ExtractError::ProviderStatus(_, code) => *code == 429 || *code == 502 || *code == 503
            || *code == 504 || *code == 500,
        _ => false,
    }
}

/// What the status of a provider's answer means: 429 is a refusal for now, a
/// status outside 200 to 299 a failure, any other a success.
pub fn check_status(provider: &str, code: u16) -> (r: Result<(), ExtractError>)
    ensures
        code == 429 ==> (r matches Err(ExtractError::RateLimited(p)) && p@ == provider@),
        code != 429 && !(200 <= code <= 299) ==> (r matches Err(ExtractError::ProviderStatus(p, c))
            && p@ == provider@ && c == code),
        code != 429 && 200 <= code <= 299 ==> r is Ok,
{
    if code == 429 {
        return Err(ExtractError::RateLimited(provider.to_string()));
    }
    if !(200 <= code && code <= 299) {
        return Err(ExtractError::ProviderStatus(provider.to_string(), code));
    }
    Ok(())
}

/// The answer's text: the first choice's content without surrounding white
/// space, or the empty text where there is no choice.
pub fn first_choice_text(contents: &Vec<String>) -> (r: String)
    ensures
        contents@.len() == 0 ==> r@ == Seq::<char>::empty(),
        contents@.len() > 0 ==> r@ == trim(contents@[0]@),
{
    if contents.len() == 0 {
        return String::new();
    }
    let cs = crate::text::chars_of(contents[0].as_str());
    crate::text::string_of(&crate::text::trim_chars(&cs))
}

/// The address of the chat completions endpoint under a base address.
pub fn chat_completions_url(base: &str) -> (r: String)
    ensures
        r@ == base@ + "/chat/completions"@,
{
    let mut s = base.to_string();
    s.append("/chat/completions");
    s
}

/// Trying providers one after another until one answers.
#[derive(Debug)]
pub struct Failover {
    providers: Vec<Provider>,
    next: usize,
    last_err: Option<ExtractError>,
}

impl Failover {
    /// The providers in the order they are tried.
    pub closed spec fn order(&self) -> Seq<Provider> {
        self.providers@
    }

    /// How many providers have been tried.
    pub closed spec fn tried(&self) -> nat {
        self.next as nat
    }

    /// The error of the last provider tried, if any.
    pub closed spec fn last_error(&self) -> Option<ExtractError> {
        self.last_err
    }

    /// Starts trying `providers` in order; with none there is nothing to try.
    pub fn start(providers: Vec<Provider>) -> (r: Result<Failover, ExtractError>)
        ensures
            providers@.len() == 0 ==> r matches Err(ExtractError::NoProviders),
            providers@.len() > 0 ==> (r matches Ok(f) && f.order() == providers@ && f.tried() == 0
                && f.last_error() is None),
    {
        if providers.len() == 0 {
            Err(ExtractError::NoProviders)
        } else {
            Ok(Failover { providers, next: 0, last_err: None })
        }
    }

    /// The provider to try next, if one is left.
    pub fn next_provider(&self) -> (r: Option<Provider>)
        ensures
            self.tried() < self.order().len() ==> r == Some(self.order()[self.tried() as int]),
            self.tried() >= self.order().len() ==> r is None,
    {
        if self.next < self.providers.len() {
            Some(self.providers[self.next])
        } else {
            None
        }
    }

    /// Takes note of the answer of the provider just tried. An answer gives the
    /// race time read from it; an error that another provider may not have ends
    /// with that error; any other error moves on to the next provider.
    pub fn record(&mut self, result: Result<String, ExtractError>) -> (r: Option<Result<Duration, ExtractError>>)
        requires
            old(self).tried() < old(self).order().len(),
        ensures
            final(self).order() == old(self).order(),
            final(self).tried() == old(self).tried() + 1,
            match result {
                Ok(text) => match answer_time(text@) {
                    Some(w) => r matches Some(x) && parsed_as(w, x),
                    None => r matches Some(Err(ExtractError::YellowMissing)),
                },
                Err(e) => if retryable(e) {
                    r is None && final(self).last_error() == Some(e)
                } else {
                    r == Some(Err::<Duration, ExtractError>(e))
                },
            },
    {
        assert(self.next < self.providers.len());
        self.next = self.next + 1;
        match result {
            Ok(text) => Some(crate::ocr::post_process_to_duration(text.as_str())),
            Err(e) => if is_retryable(&e) {
                self.last_err = Some(e);
                None
            } else {
                Some(Err(e))
            },
        }
    }

    /// The error once every provider failed: the last provider's error, or
    /// `NoProviders` where none was tried.
    pub fn finish(self) -> (r: ExtractError)
        ensures
            match self.last_error() {
                Some(e) => r == e,
                None => r is NoProviders,
            },
    {
        match self.last_err {
            Some(e) => e,
            None => ExtractError::NoProviders,
        }
    }
}

/// Trying the next provider follows exactly a refusal for now, a failure of the
/// HTTP client, or a status error with the status 429, 500, 502, 503 or 504;
/// any other status (such as 400, 401 or 404) and any other error ends the failover.
pub proof fn lemma_retryable_errors(e: ExtractError)
    ensures
        retryable(e) <==> (e is RateLimited || e is Http || (e matches ExtractError::ProviderStatus(_, c)
            && (c == 429 || c == 500 || c == 502 || c == 503 || c == 504))),
{
}

} // verus!
