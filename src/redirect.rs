use vstd::prelude::*;

use crate::errors::ConnectorError;
use crate::types::{Method, RedirectForm};

verus! {

/// The decoded query pairs of `s` parsed as an absolute URL, in order, or
/// `None` when `s` is not a valid URL.
pub uninterp spec fn url_query_pairs(s: Seq<char>) -> Option<Seq<(Seq<char>, Seq<char>)>>;

pub open spec fn pairs_view(v: Seq<(String, String)>) -> Seq<(Seq<char>, Seq<char>)> {
    v.map_values(|p: (String, String)| (p.0@, p.1@))
}

pub open spec fn opt_pairs_view(o: Option<Vec<(String, String)>>) -> Option<
    Seq<(Seq<char>, Seq<char>)>,
> {
    match o {
        Some(v) => Some(pairs_view(v@)),
        None => None,
    }
}

/// Relies on url::Url::parse, which accepts or rejects the text, and on
/// url::Url::query_pairs, which decodes the query of the parsed URL into
/// name/value pairs in order; both depend on the text alone.
#[verifier::external_body]
fn parse_query_pairs(s: &str) -> (r: Option<Vec<(String, String)>>)
    ensures
        opt_pairs_view(r) == url_query_pairs(s@),
{
    match url::Url::parse(s) {
        Ok(u) => Some(u.query_pairs().map(|(k, v)| (k.into_owned(), v.into_owned())).collect()),
        Err(_) => None,
    }
}

/// The mapping from name to value of `ps` where a later pair overrides an
/// earlier one with the same name.
pub open spec fn last_wins(ps: Seq<(Seq<char>, Seq<char>)>) -> Map<Seq<char>, Seq<char>>
    decreases ps.len(),
{
    if ps.len() == 0 {
        Map::empty()
    } else {
        last_wins(ps.drop_last()).insert(ps.last().0, ps.last().1)
    }
}

/// No two pairs share a name.
pub open spec fn unique_names(ps: Seq<(Seq<char>, Seq<char>)>) -> bool {
    forall|i: int, j: int| 0 <= i < j < ps.len() ==> ps[i].0 != ps[j].0
}

/// Replacing the value of a pair whose name is unique overrides that name.
proof fn lemma_last_wins_update(ps: Seq<(Seq<char>, Seq<char>)>, j: int, v: Seq<char>)
    requires
        unique_names(ps),
        0 <= j < ps.len(),
    ensures
        last_wins(ps.update(j, (ps[j].0, v))) == last_wins(ps).insert(ps[j].0, v),
    decreases ps.len(),
{
    let k = ps[j].0;
    let qs = ps.update(j, (k, v));
    if j == ps.len() - 1 {
        assert(qs.drop_last() =~= ps.drop_last());
        assert(last_wins(qs) =~= last_wins(ps).insert(k, v));
    } else {
        let dl = ps.drop_last();
        assert(qs.drop_last() =~= dl.update(j, (k, v)));
        lemma_last_wins_update(dl, j, v);
        assert(ps.last().0 != k);
        assert(last_wins(qs) =~= last_wins(ps).insert(k, v));
    }
}

/// Collects query pairs into form fields: one field per name, whose value
/// is that of the name's last pair.
pub fn form_fields_from_pairs(pairs: Vec<(String, String)>) -> (r: Vec<(String, String)>)
    ensures
        unique_names(pairs_view(r@)),
        last_wins(pairs_view(r@)) == last_wins(pairs_view(pairs@)),
{
    let ghost pv = pairs_view(pairs@);
    let mut out: Vec<(String, String)> = Vec::new();
    let mut i: usize = 0;
    while i < pairs.len()
        invariant
            i <= pairs.len(),
            pv == pairs_view(pairs@),
            unique_names(pairs_view(out@)),
            last_wins(pairs_view(out@)) == last_wins(pv.take(i as int)),
        decreases pairs.len() - i,
    {
        let ghost ov = pairs_view(out@);
        assert(pv.take(i + 1).drop_last() =~= pv.take(i as int));
        assert(pv.take(i + 1).last() == pv[i as int]);
        let name = pairs[i].0.clone();
        let value = pairs[i].1.clone();
        let mut j: usize = 0;
        let mut found: Option<usize> = None;
        while j < out.len()
            invariant
                j <= out.len(),
                ov == pairs_view(out@),
                found matches Some(x) ==> x < out.len() && ov[x as int].0 == name@,
                found is None ==> forall|m: int| 0 <= m < j ==> ov[m].0 != name@,
            decreases out.len() - j,
        {
            if found.is_none() && out[j].0 == name {
                found = Some(j);
            }
            j = j + 1;
        }
        match found {
            Some(x) => {
                out.set(x, (name, value));
                proof {
                    lemma_last_wins_update(ov, x as int, value@);
                    assert(pairs_view(out@) =~= ov.update(x as int, (ov[x as int].0, value@)));
                }
            },
            None => {
                out.push((name, value));
                proof {
                    assert(pairs_view(out@) =~= ov.push((name@, value@)));
                    assert(pairs_view(out@).drop_last() =~= ov);
                }
            },
        }
        i = i + 1;
    }
    assert(pv.take(pairs.len() as int) =~= pv);
    out
}

/// `url` is present and does not parse.
pub open spec fn url_fails(url: Option<String>) -> bool {
    url matches Some(u) && url_query_pairs(u@) is None
}

/// `form` is the redirect asked for by `url`, which does not fail: none
/// without a url, else a GET form for the url with the url's query pairs as
/// fields, one per name, the last pair of a name winning.
pub open spec fn redirection_for(url: Option<String>, form: Option<RedirectForm>) -> bool {
    match url {
        None => form is None,
        Some(u) => match url_query_pairs(u@) {
            None => false,
            Some(ps) => form matches Some(f) && f.url == u && f.method == Method::Get
                && unique_names(pairs_view(f.form_fields@)) && last_wins(
                pairs_view(f.form_fields@),
            ) == last_wins(ps),
        },
    }
}

/// The redirect that a response's redirect url asks for: `None` when there
/// is no url, a GET form with the url's query as its fields otherwise, and
/// `ResponseHandlingFailed` when the url does not parse.
pub fn to_redirection_data(redirect_url: Option<String>) -> (r: Result<
    Option<RedirectForm>,
    ConnectorError,
>)
    ensures
        url_fails(redirect_url) ==> r == Err::<Option<RedirectForm>, ConnectorError>(
            ConnectorError::ResponseHandlingFailed,
        ),
        !url_fails(redirect_url) ==> (r matches Ok(form) && redirection_for(redirect_url, form)),
{
    match redirect_url {
        None => Ok(None),
        Some(url) => match parse_query_pairs(url.as_str()) {
            None => Err(ConnectorError::ResponseHandlingFailed),
            Some(pairs) => Ok(
                Some(
                    RedirectForm {
                        url,
                        method: Method::Get,
                        form_fields: form_fields_from_pairs(pairs),
                    },
                ),
            ),
        },
    }
}

} // verus!
