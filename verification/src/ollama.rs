//! Where the Ollama server that makes the embeddings is reached.
use vstd::prelude::*;

use crate::text::{chars_of, string_of};

verus! {

/// The base URL of the Ollama server on `host`: "http://" followed by the host.
pub open spec fn ollama_url(host: Seq<char>) -> Seq<char> {
    seq!['h', 't', 't', 'p', ':', '/', '/'] + host
}

/// The base URL of the Ollama server on `host` (see `ollama_url`); the port
/// is given to the client apart.
pub fn ollama_base_url(host: &str) -> (r: String)
    ensures
        r@ == ollama_url(host@),
{
    let mut url: Vec<char> = vec!['h', 't', 't', 'p', ':', '/', '/'];
    let h = chars_of(host);
    let mut k: usize = 0;
    while k < h.len()
        invariant
            0 <= k <= h.len(),
            url@ == seq!['h', 't', 't', 'p', ':', '/', '/'] + h@.take(k as int),
        decreases h.len() - k,
    {
        url.push(h[k]);
        assert(url@ =~= seq!['h', 't', 't', 'p', ':', '/', '/'] + h@.take(k + 1));
        k += 1;
    }
    assert(h@.take(h.len() as int) =~= h@);
    string_of(&url)
}

/// The base URL is "http://" followed by the whole host, unchanged.
pub proof fn law_base_url_keeps_whole_host(host: Seq<char>)
    ensures
        ollama_url(host).len() == 7 + host.len(),
        ollama_url(host).take(7) == seq!['h', 't', 't', 'p', ':', '/', '/'],
        ollama_url(host).skip(7) == host,
{
    assert(ollama_url(host).take(7) =~= seq!['h', 't', 't', 'p', ':', '/', '/']);
    assert(ollama_url(host).skip(7) =~= host);
}

} // verus!
