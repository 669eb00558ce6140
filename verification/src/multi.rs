use vstd::prelude::*;

use crate::error::{Error, ErrorView};
use crate::util::conversion_error;
use crate::value::{get_texts, texts, ScriptValue};

pub mod dl;
pub mod dot;
pub mod once;
pub mod op;
pub mod pipeline;
pub mod pm;
pub mod user;

verus! {

/// The paths on one side of a transfer: one path, or an ordered list.
#[derive(Clone, Debug, PartialEq, Eq)]
pub enum SyncPath {
    Single(String),
    Multiple(Vec<String>),
}

/// Mathematical model of a [`SyncPath`].
pub enum SyncPathView {
    Single(Seq<char>),
    Multiple(Seq<Seq<char>>),
}

impl View for SyncPath {
    type V = SyncPathView;

    open spec fn view(&self) -> SyncPathView {
        match *self {
            SyncPath::Single(path) => SyncPathView::Single(path@),
            SyncPath::Multiple(paths) => SyncPathView::Multiple(paths.deep_view()),
        }
    }
}

/// The paths that a script value stands for: a text is one path, a
/// sequence of texts is a list of paths, nothing else is a path.
pub open spec fn sync_path_of(value: ScriptValue) -> Option<SyncPathView> {
    match value {
        ScriptValue::Text(path) => Some(SyncPathView::Single(path@)),
        ScriptValue::List(items) => match texts(items@) {
            Some(paths) => Some(SyncPathView::Multiple(paths)),
            None => None,
        },
        _ => None,
    }
}

impl SyncPath {
    /// Reads the paths of one side out of a script value.
    pub fn from_value(value: &ScriptValue) -> (r: Result<SyncPath, Error>)
        ensures
            match r {
                Ok(path) => sync_path_of(*value) == Some(path@),
                Err(e) => sync_path_of(*value) is None && e@ == (ErrorView::ConversionError {
                    from: "value"@,
                    to: "SyncPath"@,
                    message: Some("expected a path or a list of paths"@),
                }),
            },
    {
        match value {
            ScriptValue::Text(path) => {
                return Ok(SyncPath::Single(path.clone()));
            },
            ScriptValue::List(items) => {
                match get_texts(items) {
                    Some(paths) => {
                        return Ok(SyncPath::Multiple(paths));
                    },
                    None => {},
                }
            },
            _ => {},
        }
        Err(conversion_error("value", "SyncPath", Some("expected a path or a list of paths")))
    }
}

/// The pairs of paths to transfer. One source and one destination make
/// one pair; one source goes to every destination of a list; two lists of
/// one length pair up by position. A list of sources with a single
/// destination, and two lists of different lengths, pair up with nothing.
pub open spec fn paired(src: SyncPathView, dst: SyncPathView) -> Option<
    Seq<(Seq<char>, Seq<char>)>,
> {
    match (src, dst) {
        (SyncPathView::Single(s), SyncPathView::Single(d)) => Some(seq![(s, d)]),
        (SyncPathView::Single(s), SyncPathView::Multiple(ds)) => Some(
            Seq::new(ds.len(), |i: int| (s, ds[i])),
        ),
        (SyncPathView::Multiple(ss), SyncPathView::Multiple(ds)) => if ss.len() == ds.len() {
            Some(Seq::new(ss.len(), |i: int| (ss[i], ds[i])))
        } else {
            None
        },
        (SyncPathView::Multiple(_), SyncPathView::Single(_)) => None,
    }
}

/// Pairs the source paths with the destination paths.
pub fn sync_pairs(src: &SyncPath, dst: &SyncPath) -> (r: Result<Vec<(String, String)>, Error>)
    ensures
        match r {
            Ok(pairs) => paired(src@, dst@) == Some(pairs.deep_view()),
            Err(e) => paired(src@, dst@) is None && e@ == ErrorView::InvalidPathShape,
        },
{
    let mut pairs: Vec<(String, String)> = Vec::new();
    match (src, dst) {
        (SyncPath::Single(s), SyncPath::Single(d)) => {
            pairs.push((s.clone(), d.clone()));
            proof {
                assert(pairs.deep_view() =~= seq![(s@, d@)]);
            }
        },
        (SyncPath::Single(s), SyncPath::Multiple(ds)) => {
            let mut i: usize = 0;
            while i < ds.len()
                invariant
                    i <= ds.len(),
                    pairs.len() == i,
                    forall|j: int|
                        0 <= j < i ==> (#[trigger] pairs[j]).0@ == s@ && pairs[j].1@ == ds[j]@,
                decreases ds.len() - i,
            {
                pairs.push((s.clone(), ds[i].clone()));
                i = i + 1;
            }
            proof {
                assert(pairs.deep_view() =~= Seq::new(
                    ds.deep_view().len(),
                    |i: int| (s@, ds.deep_view()[i]),
                ));
            }
        },
        (SyncPath::Multiple(ss), SyncPath::Multiple(ds)) => {
            if ss.len() != ds.len() {
                return Err(Error::InvalidPathShape);
            }
            let mut i: usize = 0;
            while i < ss.len()
                invariant
                    i <= ss.len(),
                    ss.len() == ds.len(),
                    pairs.len() == i,
                    forall|j: int|
                        0 <= j < i ==> (#[trigger] pairs[j]).0@ == ss[j]@ && pairs[j].1@ == ds[j]@,
                decreases ss.len() - i,
            {
                pairs.push((ss[i].clone(), ds[i].clone()));
                i = i + 1;
            }
            proof {
                assert(pairs.deep_view() =~= Seq::new(
                    ss.deep_view().len(),
                    |i: int| (ss.deep_view()[i], ds.deep_view()[i]),
                ));
            }
        },
        (SyncPath::Multiple(_), SyncPath::Single(_)) => {
            return Err(Error::InvalidPathShape);
        },
    }
    Ok(pairs)
}

/// One source path fans out to every destination of a list: there are as
/// many pairs as destinations, each from that source, in the order of the
/// destinations.
pub proof fn lemma_fan_out(src: Seq<char>, dsts: Seq<Seq<char>>)
    ensures
        paired(SyncPathView::Single(src), SyncPathView::Multiple(dsts)) matches Some(pairs)
            && pairs.len() == dsts.len() && forall|i: int|
            0 <= i < dsts.len() ==> #[trigger] pairs[i] == (src, dsts[i]),
{
}

/// Two lists pair up exactly when they have one length, and a list of
/// sources never pairs up with a single destination.
pub proof fn lemma_shapes_refused(srcs: Seq<Seq<char>>, dsts: Seq<Seq<char>>, dst: Seq<char>)
    ensures
        paired(SyncPathView::Multiple(srcs), SyncPathView::Multiple(dsts)) is Some <==> srcs.len()
            == dsts.len(),
        paired(SyncPathView::Multiple(srcs), SyncPathView::Single(dst)) is None,
{
}

} // verus!
