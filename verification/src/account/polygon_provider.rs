//! Which RPC endpoint of the chain to use.
use vstd::prelude::*;
use crate::text;
use crate::types::Config;
use crate::uint::Uint256;

verus! {

/// The endpoints that are configured: the pieces between commas that are not blank.
pub open spec fn endpoints_of(config: Config) -> Seq<Seq<char>> {
    text::trimmed_nonempty(text::pieces(config.polygon_rpc_url@, ','))
}

pub fn parse_polygon_rpc_endpoints(config: &Config) -> (r: Vec<String>)
    ensures
        text::texts(r@) == endpoints_of(*config),
{
    let parts = text::split(config.polygon_rpc_url.as_str(), ',');
    text::keep_trimmed(&parts)
}

pub fn get_primary_polygon_rpc(config: &Config) -> (r: Result<String, String>)
    ensures
        match r {
            Ok(endpoint) => endpoints_of(*config).len() > 0 && endpoint@ == endpoints_of(
                *config,
            )[0],
            Err(message) => endpoints_of(*config).len() == 0 && message@
                == "POLYGON_RPC_URL does not contain any valid endpoint"@,
        },
{
    let endpoints = parse_polygon_rpc_endpoints(config);
    assert(text::texts(endpoints@).len() == endpoints@.len());
    if endpoints.len() > 0 {
        assert(text::texts(endpoints@)[0] == endpoints@[0]@);
        Ok(endpoints[0].clone())
    } else {
        Err("POLYGON_RPC_URL does not contain any valid endpoint".to_owned())
    }
}

/// Refuses an endpoint of another chain.
pub fn is_provider_healthy(chain_id: Uint256) -> (r: Result<(), String>)
    ensures
        match r {
            Ok(_) => chain_id@ == 137,
            Err(message) => chain_id@ != 137 && message@ == "unexpected chainId from RPC: "@
                + text::decimal(chain_id@),
        },
{
    if chain_id.w0 == 137 && chain_id.w1 == 0 && chain_id.w2 == 0 && chain_id.w3 == 0 {
        Ok(())
    } else {
        let mut message = "unexpected chainId from RPC: ".to_owned();
        message.append(chain_id.to_text().as_str());
        Err(message)
    }
}

/// A search for an endpoint that works.
pub struct ProviderSearch {
    endpoints: Vec<String>,
    next: usize,
    errors: Vec<String>,
}

pub struct SearchView {
    pub endpoints: Seq<Seq<char>>,
    pub next: int,
    pub errors: Seq<Seq<char>>,
}

/// What a search calls for.
pub enum SearchAction {
    /// Try this endpoint.
    Try(String),
    /// Every endpoint failed.
    Failed(String),
}

/// What becomes of the provider that worked last.
#[derive(Clone, Copy, Debug, PartialEq, Eq, Structural)]
pub enum KnownStep {
    /// It stands for other endpoints, or there is none: the endpoints are tried.
    Search,
    /// Its health is to be checked.
    Check,
    /// It still works and is used.
    Use,
    /// It no longer works: it is forgotten, and the endpoints are tried.
    Forget,
}

/// What becomes of the provider that is remembered under a key, given its health once that was
/// checked.
pub open spec fn known_step(
    endpoints: Seq<Seq<char>>,
    known: Option<Seq<char>>,
    healthy: Option<bool>,
) -> KnownStep {
    if known != Some(text::joined(endpoints, "|"@)) {
        KnownStep::Search
    } else {
        match healthy {
            None => KnownStep::Check,
            Some(true) => KnownStep::Use,
            Some(false) => KnownStep::Forget,
        }
    }
}

/// What is said where no endpoint works.
pub open spec fn failure_message(errors: Seq<Seq<char>>) -> Seq<char> {
    "all polygon rpc endpoints failed: "@ + (if errors.len() == 0 {
        "unknown error"@
    } else {
        text::joined(errors, " | "@)
    })
}

impl ProviderSearch {
    pub closed spec fn view(self) -> SearchView {
        SearchView {
            endpoints: text::texts(self.endpoints@),
            next: self.next as int,
            errors: text::texts(self.errors@),
        }
    }

    /// No endpoint is passed over, and none is tried twice.
    pub open spec fn in_order(self) -> bool {
        0 <= self@.next <= self@.endpoints.len()
    }

    /// The key under which a working endpoint is remembered.
    pub fn key(&self) -> (r: String)
        ensures
            r@ == text::joined(self@.endpoints, "|"@),
    {
        text::join(&self.endpoints, "|")
    }

    /// What becomes of the provider that is remembered under a key.
    pub fn known(&self, key: Option<&str>, healthy: Option<bool>) -> (r: KnownStep)
        ensures
            r == known_step(
                self@.endpoints,
                match key {
                    Some(k) => Some(k@),
                    None => None,
                },
                healthy,
            ),
    {
        let own = self.key();
        match key {
            Some(k) => if !text::text_eq(k, own.as_str()) {
                return KnownStep::Search;
            },
            None => {
                return KnownStep::Search;
            },
        }
        match healthy {
            None => KnownStep::Check,
            Some(works) => if works {
                KnownStep::Use
            } else {
                KnownStep::Forget
            },
        }
    }

    /// The next endpoint to try.
    pub fn advance(&mut self) -> (r: SearchAction)
        requires
            old(self).in_order(),
        ensures
            final(self).in_order(),
            final(self)@.endpoints == old(self)@.endpoints,
            final(self)@.errors == old(self)@.errors,
            match r {
                SearchAction::Try(endpoint) => old(self)@.next < old(self)@.endpoints.len()
                    && endpoint@ == old(self)@.endpoints[old(self)@.next] && final(self)@.next
                    == old(self)@.next + 1,
                SearchAction::Failed(message) => old(self)@.next == old(self)@.endpoints.len()
                    && final(self)@.next == old(self)@.next && message@ == failure_message(
                    old(self)@.errors,
                ),
            },
    {
        if self.next < self.endpoints.len() {
            let endpoint = self.endpoints[self.next].clone();
            self.next = self.next + 1;
            SearchAction::Try(endpoint)
        } else {
            let mut message = "all polygon rpc endpoints failed: ".to_owned();
            if self.errors.len() == 0 {
                message.append("unknown error");
            } else {
                let all = text::join(&self.errors, " | ");
                message.append(all.as_str());
            }
            SearchAction::Failed(message)
        }
    }

    /// An endpoint did not work: its address is none, or the check of it failed.
    pub fn reject(&mut self, endpoint: &str, error: &str, invalid: bool)
        ensures
            final(self)@.endpoints == old(self)@.endpoints,
            final(self)@.next == old(self)@.next,
            final(self)@.errors == old(self)@.errors.push(
                if invalid {
                    endpoint@ + ": invalid endpoint ("@ + error@ + ")"@
                } else {
                    endpoint@ + ": "@ + error@
                },
            ),
    {
        let ghost before = self.errors@;
        let mut line = endpoint.to_owned();
        if invalid {
            line.append(": invalid endpoint (");
            line.append(error);
            line.append(")");
        } else {
            line.append(": ");
            line.append(error);
        }
        let ghost added = line@;
        self.errors.push(line);
        assert(text::texts(self.errors@) =~= text::texts(before).push(added));
    }
}

/// Begins the search for an endpoint that works.
pub fn get_working_polygon_provider(config: &Config) -> (r: Result<ProviderSearch, String>)
    ensures
        match r {
            Ok(search) => endpoints_of(*config).len() > 0 && search.in_order()
                && search@.endpoints == endpoints_of(*config) && search@.next == 0
                && search@.errors == Seq::<Seq<char>>::empty(),
            Err(message) => endpoints_of(*config).len() == 0 && message@
                == "POLYGON_RPC_URL does not contain a usable endpoint"@,
        },
{
    let endpoints = parse_polygon_rpc_endpoints(config);
    assert(text::texts(endpoints@).len() == endpoints@.len());
    if endpoints.len() == 0 {
        return Err("POLYGON_RPC_URL does not contain a usable endpoint".to_owned());
    }
    let search = ProviderSearch { endpoints, next: 0, errors: Vec::new() };
    assert(search@.errors =~= Seq::<Seq<char>>::empty());
    Ok(search)
}

/// The endpoints are the parts of the setting between commas, without the white space around them
/// and without those that are blank: none of them holds a comma or is empty.
pub proof fn endpoints_are_the_parts_of_the_setting(config: Config, i: int)
    requires
        0 <= i < endpoints_of(config).len(),
    ensures
        endpoints_of(config)[i].len() > 0,
        !endpoints_of(config)[i].contains(','),
        exists|k: int|
            0 <= k < text::pieces(config.polygon_rpc_url@, ',').len() && endpoints_of(config)[i]
                == text::trimmed(#[trigger] text::pieces(config.polygon_rpc_url@, ',')[k]),
{
    let parts = text::pieces(config.polygon_rpc_url@, ',');
    text::pieces_make_up_the_text(config.polygon_rpc_url@, ',');
    text::blank_texts_are_dropped(parts, Seq::empty());
    let k = lemma_kept(parts, i);
    let (a, b) = text::trimming_takes_the_white_space_off(parts[k]);
    assert(!parts[k].contains(','));
    if endpoints_of(config)[i].contains(',') {
        let j = choose|j: int|
            0 <= j < endpoints_of(config)[i].len() && endpoints_of(config)[i][j] == ',';
        assert(parts[k][a + j] == ',');
    }
}

proof fn lemma_kept(parts: Seq<Seq<char>>, i: int) -> (k: int)
    requires
        0 <= i < text::trimmed_nonempty(parts).len(),
    ensures
        0 <= k < parts.len(),
        text::trimmed_nonempty(parts)[i] == text::trimmed(parts[k]),
    decreases parts.len(),
{
    let head = parts.drop_last();
    if i < text::trimmed_nonempty(head).len() {
        let k = lemma_kept(head, i);
        assert(head[k] == parts[k]);
        k
    } else {
        parts.len() - 1
    }
}

/// The provider that worked last is used exactly where it stands for the same endpoints and still
/// works; where it no longer works it is forgotten, and where it stands for others it is passed
/// over.
pub proof fn remembered_provider_is_used_while_it_works(
    endpoints: Seq<Seq<char>>,
    known: Option<Seq<char>>,
    healthy: Option<bool>,
)
    ensures
        ({
            let same = known == Some(text::joined(endpoints, "|"@));
            let step = known_step(endpoints, known, healthy);
            &&& step == KnownStep::Use <==> same && healthy == Some(true)
            &&& step == KnownStep::Forget <==> same && healthy == Some(false)
            &&& step == KnownStep::Check <==> same && healthy is None
            &&& step == KnownStep::Search <==> !same
        }),
{
}

/// Where no endpoint works every error is told, one after the other.
pub proof fn every_error_is_told(errors: Seq<Seq<char>>, next: Seq<char>)
    ensures
        failure_message(Seq::empty()) == "all polygon rpc endpoints failed: "@ + "unknown error"@,
        failure_message(seq![next]) == "all polygon rpc endpoints failed: "@ + next,
        errors.len() > 0 ==> failure_message(errors.push(next)) == failure_message(errors) + " | "@
            + next,
{
    text::joined_texts_grow_at_the_end(errors, next, " | "@);
    if errors.len() > 0 {
        assert(failure_message(errors.push(next)) =~= failure_message(errors) + " | "@ + next);
    }
}

} // verus!
