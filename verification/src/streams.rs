//! Stream selection: which streams of a source go to the destination, and
//! under which index.

use vstd::prelude::*;

verus! {

/// What a stream carries.
#[derive(Clone, Copy, Debug, PartialEq, Eq, Structural)]
pub enum Medium {
    Video,
    Audio,
    Subtitle,
    Other,
}

/// Which streams of a source an operation takes along.
#[derive(Clone, Copy, Debug, PartialEq, Eq, Structural)]
pub enum StreamSelection {
    /// Every video and every audio stream.
    VideoAndAudio,
    /// The one stream with the given index.
    Only(usize),
}

impl StreamSelection {
    /// Whether the stream at `index`, carrying `medium`, is taken along.
    pub open spec fn selects(self, index: int, medium: Medium) -> bool {
        match self {
            StreamSelection::VideoAndAudio => medium == Medium::Video || medium == Medium::Audio,
            StreamSelection::Only(chosen) => index == chosen,
        }
    }

    /// Whether the stream at `index`, carrying `medium`, is taken along.
    pub fn selects_stream(&self, index: usize, medium: Medium) -> (yes: bool)
        ensures
            yes == self.selects(index as int, medium),
    {
        match self {
            StreamSelection::VideoAndAudio => match medium {
                Medium::Video => true,
                Medium::Audio => true,
                _ => false,
            },
            StreamSelection::Only(chosen) => index == *chosen,
        }
    }
}

/// How many of the streams `media`, listed in container order, are taken
/// along.
pub open spec fn selected_count(media: Seq<Medium>, selection: StreamSelection) -> nat
    decreases media.len(),
{
    if media.len() == 0 {
        0
    } else {
        selected_count(media.drop_last(), selection) + if selection.selects(
            media.len() - 1,
            media.last(),
        ) {
            1nat
        } else {
            0nat
        }
    }
}

/// Where the source stream at `index` goes: a selected stream gets the
/// number of selected streams before it, any other stream goes nowhere.
pub open spec fn target_of(media: Seq<Medium>, selection: StreamSelection, index: int) -> Option<
    usize,
>
    recommends
        0 <= index < media.len(),
{
    if selection.selects(index, media[index]) {
        Some(selected_count(media.take(index), selection) as usize)
    } else {
        None
    }
}

/// The stream mapping of a source: for each of its streams, in container
/// order, the destination index or nothing.
pub open spec fn mapping_of(media: Seq<Medium>, selection: StreamSelection) -> Seq<Option<usize>> {
    Seq::new(media.len(), |index: int| target_of(media, selection, index))
}

/// How many entries of a mapping name a destination.
pub open spec fn mapped_count_of(targets: Seq<Option<usize>>) -> nat
    decreases targets.len(),
{
    if targets.len() == 0 {
        0
    } else {
        mapped_count_of(targets.drop_last()) + if targets.last() is Some {
            1nat
        } else {
            0nat
        }
    }
}

/// Whether destination indices are handed out in source order without a
/// gap: each mapped stream gets the number of mapped streams before it.
pub open spec fn is_orderly(targets: Seq<Option<usize>>) -> bool {
    forall|index: int|
        0 <= index < targets.len() && (#[trigger] targets[index]) is Some ==> targets[index].unwrap()
            == mapped_count_of(targets.take(index))
}

/// Where a mapping sends the source stream at `index`; streams that the
/// source does not have go nowhere.
pub open spec fn lookup(targets: Seq<Option<usize>>, index: int) -> Option<usize> {
    if 0 <= index < targets.len() {
        targets[index]
    } else {
        None
    }
}

/// No more streams are selected than the source has.
pub proof fn lemma_selected_count_bound(media: Seq<Medium>, selection: StreamSelection)
    ensures
        selected_count(media, selection) <= media.len(),
    decreases media.len(),
{
    if media.len() > 0 {
        lemma_selected_count_bound(media.drop_last(), selection);
    }
}

/// The mapping of a source names as many destinations as streams are
/// selected, in every prefix of the source.
proof fn lemma_mapped_count_of_mapping(media: Seq<Medium>, selection: StreamSelection, upto: int)
    requires
        0 <= upto <= media.len(),
        media.len() <= usize::MAX,
    ensures
        mapped_count_of(mapping_of(media, selection).take(upto)) == selected_count(
            media.take(upto),
            selection,
        ),
    decreases upto,
{
    if upto > 0 {
        lemma_mapped_count_of_mapping(media, selection, upto - 1);
        assert(mapping_of(media, selection).take(upto).drop_last() =~= mapping_of(
            media,
            selection,
        ).take(upto - 1));
        assert(media.take(upto).drop_last() =~= media.take(upto - 1));
    }
}

/// Destination indices follow source order: of two selected streams, the
/// later one gets the larger index.
pub proof fn lemma_mapping_keeps_order(
    media: Seq<Medium>,
    selection: StreamSelection,
    earlier: int,
    later: int,
)
    requires
        media.len() <= usize::MAX,
        0 <= earlier < later < media.len(),
        selection.selects(earlier, media[earlier]),
        selection.selects(later, media[later]),
    ensures
        mapping_of(media, selection)[earlier] is Some,
        mapping_of(media, selection)[later] is Some,
        mapping_of(media, selection)[earlier].unwrap() < mapping_of(media, selection)[later].unwrap(),
    decreases later - earlier,
{
    lemma_selected_count_bound(media.take(later), selection);
    lemma_selected_count_bound(media.take(earlier), selection);
    assert(media.take(later).drop_last() =~= media.take(later - 1));
    if earlier < later - 1 {
        lemma_selected_count_grows(media, selection, earlier + 1, later - 1);
    }
    assert(media.take(earlier + 1).drop_last() =~= media.take(earlier));
}

/// Longer prefixes of a source hold at least as many selected streams.
proof fn lemma_selected_count_grows(
    media: Seq<Medium>,
    selection: StreamSelection,
    shorter: int,
    longer: int,
)
    requires
        0 <= shorter <= longer <= media.len(),
    ensures
        selected_count(media.take(shorter), selection) <= selected_count(
            media.take(longer),
            selection,
        ),
    decreases longer - shorter,
{
    if shorter < longer {
        lemma_selected_count_grows(media, selection, shorter, longer - 1);
        assert(media.take(longer).drop_last() =~= media.take(longer - 1));
    }
}

/// Every destination index that the mapping hands out lies below the
/// count of selected streams.
pub proof fn lemma_target_is_below_selected_count(
    media: Seq<Medium>,
    selection: StreamSelection,
    index: int,
)
    requires
        0 <= index < media.len(),
        selection.selects(index, media[index]),
    ensures
        selected_count(media.take(index), selection) < selected_count(media, selection),
{
    lemma_selected_count_grows(media, selection, index + 1, media.len() as int);
    assert(media.take(index + 1).drop_last() =~= media.take(index));
    assert(media.take(media.len() as int) =~= media);
}

/// Destination indices leave no gap: every number below the count of
/// selected streams is the destination of some stream of the source.
pub proof fn lemma_mapping_has_no_gap(media: Seq<Medium>, selection: StreamSelection, target: int)
    requires
        media.len() <= usize::MAX,
        0 <= target < selected_count(media, selection),
    ensures
        exists|index: int|
            0 <= index < media.len() && #[trigger] mapping_of(media, selection)[index] == Some(
                target as usize,
            ),
    decreases media.len(),
{
    let last = media.len() - 1;
    assert(media.take(last) =~= media.drop_last());
    lemma_selected_count_bound(media.drop_last(), selection);
    if selection.selects(last, media.last()) && target == selected_count(
        media.drop_last(),
        selection,
    ) {
        assert(mapping_of(media, selection)[last] == Some(target as usize));
    } else {
        lemma_mapping_has_no_gap(media.drop_last(), selection, target);
        let index = choose|index: int|
            0 <= index < media.drop_last().len() && #[trigger] mapping_of(
                media.drop_last(),
                selection,
            )[index] == Some(target as usize);
        assert(media.drop_last().take(index) =~= media.take(index));
        assert(mapping_of(media, selection)[index] == Some(target as usize));
    }
}

/// The mapping of a source asks for exactly as many destination streams as
/// streams of the source are selected.
pub proof fn lemma_mapped_count_is_selected_count(media: Seq<Medium>, selection: StreamSelection)
    requires
        media.len() <= usize::MAX,
    ensures
        mapped_count_of(mapping_of(media, selection)) == selected_count(media, selection),
{
    lemma_mapped_count_of_mapping(media, selection, media.len() as int);
    assert(mapping_of(media, selection).take(media.len() as int) =~= mapping_of(media, selection));
    assert(media.take(media.len() as int) =~= media);
}

/// The mapping of a source hands out destination indices in source order
/// without a gap.
pub proof fn lemma_mapping_is_orderly(media: Seq<Medium>, selection: StreamSelection)
    requires
        media.len() <= usize::MAX,
    ensures
        is_orderly(mapping_of(media, selection)),
{
    let targets = mapping_of(media, selection);
    assert forall|index: int| 0 <= index < targets.len() && (#[trigger] targets[index]) is Some implies
        targets[index].unwrap() == mapped_count_of(targets.take(index)) by {
        lemma_mapped_count_of_mapping(media, selection, index);
        lemma_selected_count_bound(media.take(index), selection);
    }
}

/// A stream mapping: for each stream of a source, the index of the
/// destination stream that takes its packets, or nothing. It is built once,
/// by `select`, and hands out destination indices in source order without a
/// gap.
#[derive(Debug)]
pub struct StreamMapping {
    targets: Vec<Option<usize>>,
}

impl View for StreamMapping {
    type V = Seq<Option<usize>>;

    closed spec fn view(&self) -> Seq<Option<usize>> {
        self.targets@
    }
}

impl StreamMapping {
    #[verifier::type_invariant]
    spec fn orderly(self) -> bool {
        is_orderly(self.targets@)
    }

    /// Maps the streams of a source, whose media are listed in container
    /// order: each selected stream goes to the next free destination index,
    /// every other stream is dropped.
    pub fn select(media: &Vec<Medium>, selection: StreamSelection) -> (mapping: StreamMapping)
        ensures
            mapping@ == mapping_of(media@, selection),
            is_orderly(mapping@),
    {
        let mut targets: Vec<Option<usize>> = Vec::new();
        let mut next: usize = 0;
        let mut index: usize = 0;
        while index < media.len()
            invariant
                index <= media.len(),
                next == selected_count(media@.take(index as int), selection),
                next <= index,
                targets@ == mapping_of(media@, selection).take(index as int),
            decreases media.len() - index,
        {
            assert(media@.take(index + 1).drop_last() =~= media@.take(index as int));
            if selection.selects_stream(index, media[index]) {
                targets.push(Some(next));
                next += 1;
            } else {
                targets.push(None);
            }
            index += 1;
            assert(targets@ =~= mapping_of(media@, selection).take(index as int));
        }
        assert(targets@ =~= mapping_of(media@, selection));
        proof {
            lemma_mapping_is_orderly(media@, selection);
        }
        StreamMapping { targets }
    }

    /// How many streams the source has.
    pub fn source_count(&self) -> (count: usize)
        ensures
            count == self@.len(),
    {
        self.targets.len()
    }

    /// Where the packets of the source stream at `source_index` go.
    pub fn target(&self, source_index: usize) -> (target: Option<usize>)
        ensures
            target == lookup(self@, source_index as int),
    {
        if source_index < self.targets.len() {
            self.targets[source_index]
        } else {
            None
        }
    }

    /// How many destination streams the mapping asks for.
    pub fn mapped_count(&self) -> (count: usize)
        ensures
            count == mapped_count_of(self@),
    {
        let mut count: usize = 0;
        let mut index: usize = 0;
        while index < self.targets.len()
            invariant
                index <= self.targets.len(),
                count == mapped_count_of(self.targets@.take(index as int)),
                count <= index,
            decreases self.targets.len() - index,
        {
            assert(self.targets@.take(index + 1).drop_last() =~= self.targets@.take(index as int));
            if self.targets[index].is_some() {
                count += 1;
            }
            index += 1;
        }
        assert(self.targets@.take(index as int) =~= self.targets@);
        count
    }

    /// The source stream behind each destination stream: entry `j` is the
    /// index of the source stream whose packets, and whose codec
    /// parameters, destination stream `j` receives.
    pub fn sources(&self) -> (sources: Vec<usize>)
        ensures
            is_orderly(self@),
            sources.len() == mapped_count_of(self@),
            forall|j: int|
                0 <= j < sources.len() ==> lookup(self@, #[trigger] sources[j] as int) == Some(
                    j as usize,
                ),
            forall|a: int, b: int| 0 <= a < b < sources.len() ==> sources[a] < sources[b],
    {
        proof {
            use_type_invariant(self);
        }
        let mut sources: Vec<usize> = Vec::new();
        let mut index: usize = 0;
        while index < self.targets.len()
            invariant
                index <= self.targets.len(),
                is_orderly(self.targets@),
                sources.len() == mapped_count_of(self.targets@.take(index as int)),
                sources.len() <= index,
                forall|j: int|
                    0 <= j < sources.len() ==> (#[trigger] sources[j]) < index && self.targets@[sources[j] as int]
                        == Some(j as usize),
                forall|a: int, b: int| 0 <= a < b < sources.len() ==> sources[a] < sources[b],
            decreases self.targets.len() - index,
        {
            assert(self.targets@.take(index + 1).drop_last() =~= self.targets@.take(index as int));
            if self.targets[index].is_some() {
                assert(self.targets@[index as int].unwrap() == sources.len());
                sources.push(index);
            }
            index += 1;
        }
        assert(self.targets@.take(index as int) =~= self.targets@);
        sources
    }
}

} // verus!
