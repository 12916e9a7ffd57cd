use vstd::prelude::*;
use crate::entry::{is_hidden, is_hidden_file};
use crate::error::PipeError;

verus! {

/// One element of a remote folder listing, as far as it could be read: its
/// `name` and `download_url`, each present only where it is a JSON string.
pub struct ListingItem {
    pub name: Option<String>,
    pub download_url: Option<String>,
}

/// The mathematical content of a [`ListingItem`].
pub struct ListingItemView {
    pub name: Option<Seq<char>>,
    pub download_url: Option<Seq<char>>,
}

impl View for ListingItem {
    type V = ListingItemView;

    open spec fn view(&self) -> ListingItemView {
        ListingItemView {
            name: match self.name {
                Some(n) => Some(n@),
                None => None,
            },
            download_url: match self.download_url {
                Some(u) => Some(u@),
                None => None,
            },
        }
    }
}

/// A file to fetch from a remote folder and write under its name.
pub struct RemoteFile {
    pub name: String,
    pub download_url: String,
}

impl View for RemoteFile {
    type V = (Seq<char>, Seq<char>);

    open spec fn view(&self) -> (Seq<char>, Seq<char>) {
        (self.name@, self.download_url@)
    }
}

/// The views of a sequence of listing items.
pub open spec fn items_view(v: Seq<ListingItem>) -> Seq<ListingItemView> {
    v.map_values(|i: ListingItem| i@)
}

/// The views of a sequence of remote files.
pub open spec fn files_view(v: Seq<RemoteFile>) -> Seq<(Seq<char>, Seq<char>)> {
    v.map_values(|f: RemoteFile| f@)
}

/// The elements of a listing body when it is a JSON array.
pub uninterp spec fn listing_of(body: Seq<u8>) -> Option<Seq<ListingItemView>>;

/// Every element of the listing carries a string `name`.
pub open spec fn well_formed(items: Seq<ListingItemView>) -> bool {
    forall|i: int| 0 <= i < items.len() ==> (#[trigger] items[i]).name is Some
}

/// The files to fetch, in listing order: every element whose name is not
/// hidden and which has a download URL.
pub open spec fn planned(items: Seq<ListingItemView>) -> Seq<(Seq<char>, Seq<char>)>
    decreases items.len(),
{
    if items.len() == 0 {
        Seq::empty()
    } else {
        let rest = planned(items.drop_last());
        let it = items.last();
        match (it.name, it.download_url) {
            (Some(n), Some(u)) => if is_hidden(n) {
                rest
            } else {
                rest.push((n, u))
            },
            _ => rest,
        }
    }
}

/// Relies on serde_json::from_slice to read the body as a JSON value, and on
/// Value::get and Value::as_str to read each array element's `name` and
/// `download_url` string fields.
#[verifier::external_body]
fn parse_listing(body: &[u8]) -> (r: Option<Vec<ListingItem>>)
    ensures
        match r {
            Some(v) => listing_of(body@) == Some(items_view(v@)),
            None => listing_of(body@) is None,
        },
{
    match serde_json::from_slice::<serde_json::Value>(body) {
        Ok(serde_json::Value::Array(items)) => Some(items.iter().map(|i| ListingItem {
            name: i.get("name").and_then(|v| v.as_str()).map(|s| s.to_string()),
            download_url: i.get("download_url").and_then(|v| v.as_str()).map(|s| s.to_string()),
        }).collect()),
        _ => None,
    }
}

/// Picks the files to fetch out of a listing: hidden names and entries
/// without a download URL are skipped; an entry without a name makes the
/// whole listing malformed.
pub fn plan_listing(items: &Vec<ListingItem>) -> (r: Result<Vec<RemoteFile>, PipeError>)
    ensures
        well_formed(items_view(items@)) ==> r is Ok && files_view(r->Ok_0@) == planned(
            items_view(items@),
        ),
        !well_formed(items_view(items@)) ==> r == Err::<Vec<RemoteFile>, PipeError>(
            PipeError::InvalidApiResponse,
        ),
{
    let mut out: Vec<RemoteFile> = Vec::new();
    let mut i: usize = 0;
    while i < items.len()
        invariant
            i <= items@.len(),
            well_formed(items_view(items@).subrange(0, i as int)),
            files_view(out@) == planned(items_view(items@).subrange(0, i as int)),
        decreases items@.len() - i,
    {
        let ghost pre = items_view(items@).subrange(0, i as int);
        let ghost next = items_view(items@).subrange(0, i + 1);
        assert(next.drop_last() =~= pre);
        let item = &items[i];
        match &item.name {
            None => {
                assert(items_view(items@)[i as int].name is None);
                return Err(PipeError::InvalidApiResponse);
            },
            Some(n) => {
                if !is_hidden_file(n.as_str()) {
                    match &item.download_url {
                        Some(u) => {
                            out.push(RemoteFile { name: n.clone(), download_url: u.clone() });
                            assert(files_view(out@) =~= planned(pre).push((n@, u@)));
                        },
                        None => {},
                    }
                }
            },
        }
        assert(well_formed(next)) by {
            assert forall|j: int| 0 <= j < next.len() implies (#[trigger] next[j]).name is Some by {
                if j < i {
                    assert(next[j] == pre[j]);
                }
            }
        }
        i = i + 1;
    }
    assert(items_view(items@).subrange(0, i as int) =~= items_view(items@));
    Ok(out)
}

/// Reads a listing body and picks the files to fetch; a body that is not a
/// JSON array is refused.
pub fn plan_remote_download(body: &[u8]) -> (r: Result<Vec<RemoteFile>, PipeError>)
    ensures
        match listing_of(body@) {
            Some(items) => if well_formed(items) {
                r is Ok && files_view(r->Ok_0@) == planned(items)
            } else {
                r == Err::<Vec<RemoteFile>, PipeError>(PipeError::InvalidApiResponse)
            },
            None => r == Err::<Vec<RemoteFile>, PipeError>(PipeError::InvalidApiResponse),
        },
{
    match parse_listing(body) {
        Some(items) => plan_listing(&items),
        None => Err(PipeError::InvalidApiResponse),
    }
}

} // verus!
