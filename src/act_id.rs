//! Discovery of the campaign identifier from the community's tool catalog.
use vstd::prelude::*;
use crate::api::{ApiResponse, ApiResponseError, HoyolabGame, HoyolabGameList, HoyolabGameTool};
use crate::search::{first_match, lemma_first_match, lemma_no_match};

verus! {

/// The catalog endpoint that lists each game's tools.
pub const HOYOLAB_TOOLS: &'static str = "https://bbs-api-os.mihoyo.com/community/gametool/wapi/main";

/// The game whose check-in tool is looked up.
pub const GENSHIN_ID: i32 = 2;

/// The check-in tool within that game.
pub const SIGNIN_ID: i32 = 19;

/// Why no identifier came out of the catalog.
#[derive(Debug)]
pub enum ActIdError {
    /// The catalog could not be fetched.
    ReqwestError(reqwest::Error),
    /// The catalog held no usable identifier.
    NotFound,
}

/// The game searched for in the catalog.
pub open spec fn is_genshin() -> spec_fn(HoyolabGame) -> bool {
    |g: HoyolabGame| g.game_id == GENSHIN_ID
}

/// The tool searched for within that game.
pub open spec fn is_signin_tool() -> spec_fn(HoyolabGameTool) -> bool {
    |t: HoyolabGameTool| t.id == SIGNIN_ID
}

/// The query pair that holds the identifier.
pub open spec fn is_act_id_pair() -> spec_fn((Seq<char>, Seq<char>)) -> bool {
    |p: (Seq<char>, Seq<char>)| p.0 == "act_id"@
}

/// The query pairs, decoded and in order, of the URL that `s` spells, if it parses.
pub uninterp spec fn url_query(s: Seq<char>) -> Option<Seq<(Seq<char>, Seq<char>)>>;

pub open spec fn pairs_view(v: Seq<(String, String)>) -> Seq<(Seq<char>, Seq<char>)> {
    v.map_values(|p: (String, String)| (p.0@, p.1@))
}

/// Relies on `reqwest::Url::parse` and `Url::query_pairs`: the query of an
/// absolute URL, split into percent-decoded name and value pairs in order.
#[verifier::external_body]
fn query_pairs(s: &str) -> (r: Option<Vec<(String, String)>>)
    ensures
        match r {
            Some(v) => url_query(s@) == Some(pairs_view(v@)),
            None => url_query(s@) is None,
        },
{
    reqwest::Url::parse(s).ok().map(
        |u| u.query_pairs().map(|(k, v)| (k.into_owned(), v.into_owned())).collect(),
    )
}

/// The `act_id` query value of a tool's web path, if the path parses and has one.
pub open spec fn act_id_of_path(path: Seq<char>) -> Option<Seq<char>> {
    match url_query(path) {
        None => None,
        Some(pairs) => match first_match(pairs, is_act_id_pair()) {
            None => None,
            Some(k) => Some(pairs[k].1),
        },
    }
}

/// The identifier that the catalog response yields: the first game with the
/// wanted id, its first tool with the wanted id, and that tool's `act_id`.
pub open spec fn act_id_of(resp: ApiResponse<HoyolabGameList>) -> Option<Seq<char>> {
    match resp.extract_spec() {
        Err(_) => None,
        Ok(list) => match first_match(list.games@, is_genshin()) {
            None => None,
            Some(gi) => {
                let tools = list.games@[gi].tools@;
                match first_match(tools, is_signin_tool()) {
                    None => None,
                    Some(ti) => act_id_of_path(tools[ti].web_path@),
                }
            },
        },
    }
}

/// Reads the `act_id` query parameter of a URL.
pub fn act_id_from_path(path: &str) -> (r: Option<String>)
    ensures
        match act_id_of_path(path@) {
            Some(v) => r matches Some(s) && s@ == v,
            None => r is None,
        },
{
    let pairs = match query_pairs(path) {
        Some(p) => p,
        None => return None,
    };
    let key = String::from_str("act_id");
    let ghost pv = pairs_view(pairs@);
    let mut k: usize = 0;
    while k < pairs.len()
        invariant
            k <= pairs.len(),
            pv == pairs_view(pairs@),
            url_query(path@) == Some(pv),
            key@ == "act_id"@,
            forall|j: int| 0 <= j < k ==> !is_act_id_pair()(pv[j]),
        decreases pairs.len() - k,
    {
        if pairs[k].0 == key {
            proof {
                lemma_first_match(pv, is_act_id_pair(), k as int);
            }
            assert(pv[k as int] == (pairs@[k as int].0@, pairs@[k as int].1@));
            return Some(pairs[k].1.clone());
        }
        k += 1;
    }
    proof {
        lemma_no_match(pv, is_act_id_pair());
    }
    None
}

/// Finds the campaign identifier in the tool catalog's response; every way of
/// not finding it is `NotFound`.
pub fn act_id_from_catalog(response: ApiResponse<HoyolabGameList>) -> (r: Result<String, ActIdError>)
    ensures
        match act_id_of(response) {
            Some(v) => r matches Ok(s) && s@ == v,
            None => r matches Err(ActIdError::NotFound),
        },
{
    let list = match response.extract() {
        Ok(l) => l,
        Err(_) => return Err(ActIdError::NotFound),
    };
    let ghost games = list.games@;
    let mut i: usize = 0;
    while i < list.games.len()
        invariant
            i <= list.games.len(),
            games == list.games@,
            response.extract_spec() == Ok::<HoyolabGameList, ApiResponseError>(list),
            forall|j: int| 0 <= j < i ==> !is_genshin()(games[j]),
        decreases list.games.len() - i,
    {
        if list.games[i].game_id == GENSHIN_ID {
            proof {
                lemma_first_match(games, is_genshin(), i as int);
            }
            let tools = &list.games[i].tools;
            let mut j: usize = 0;
            while j < tools.len()
                invariant
                    j <= tools.len(),
                    tools@ == games[i as int].tools@,
                    response.extract_spec() == Ok::<HoyolabGameList, ApiResponseError>(list),
                    games == list.games@,
                    first_match(games, is_genshin()) == Some(i as int),
                    forall|k: int| 0 <= k < j ==> !is_signin_tool()(tools@[k]),
                decreases tools.len() - j,
            {
                if tools[j].id == SIGNIN_ID {
                    proof {
                        lemma_first_match(tools@, is_signin_tool(), j as int);
                    }
                    return match act_id_from_path(tools[j].web_path.as_str()) {
                        Some(s) => Ok(s),
                        None => Err(ActIdError::NotFound),
                    };
                }
                j += 1;
            }
            proof {
                lemma_no_match(tools@, is_signin_tool());
            }
            return Err(ActIdError::NotFound);
        }
        i += 1;
    }
    proof {
        lemma_no_match(games, is_genshin());
    }
    Err(ActIdError::NotFound)
}

} // verus!
