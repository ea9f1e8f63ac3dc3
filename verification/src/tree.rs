//! The element tree: elements folded into a rooted structure of
//! sequences and items, and the flattening that lays the tree back out
//! in emission order.

use vstd::prelude::*;

use crate::charset::CharSet;
use crate::element::{DicomElement, ValueLength};
use crate::parser::{spec_parse_err_cause, ParseError, Parser};
use crate::tags;
use crate::ts::TransferSyntax;
use crate::vr::Vr;

verus! {

/// One tree node: its element, the item nodes under it when the
/// element is a sequence, and the child elements under it when the
/// node is an item.
pub struct DicomObject {
    pub element: DicomElement,
    pub items: Vec<DicomObject>,
    pub children: Vec<DicomObject>,
}

/// The rooted tree of one dataset: its transfer syntax and charset,
/// and the top-level elements in emission order. The extent records,
/// for reasoning, how many elements of the source stream the tree
/// covers: all of them for a well-formed stream.
pub struct DicomRoot {
    pub ts: TransferSyntax,
    pub cs: CharSet,
    pub children: Vec<DicomObject>,
    pub extent: Ghost<int>,
}

/// Whether an element appears in the tree: delimiters terminate
/// structure and are not kept.
pub open spec fn spec_kept(e: DicomElement) -> bool {
    e.tag != tags::ITEM_DELIMITATION_ITEM && e.tag != tags::SEQUENCE_DELIMITATION_ITEM
}

/// The elements of a stream that the tree keeps, in order.
pub open spec fn spec_kept_elems(s: Seq<DicomElement>) -> Seq<DicomElement>
    decreases s.len(),
{
    if s.len() == 0 {
        Seq::empty()
    } else {
        (if spec_kept(s[0]) {
            seq![s[0]]
        } else {
            Seq::empty()
        }) + spec_kept_elems(s.drop_first())
    }
}

/// The pre-order lay-out of a node: its element, then its items, then
/// its children.
pub open spec fn spec_flatten_obj(o: DicomObject) -> Seq<DicomElement>
    decreases o,
{
    seq![o.element] + spec_flatten_list(o.items@) + spec_flatten_list(o.children@)
}

/// The pre-order lay-out of a list of sibling nodes.
pub open spec fn spec_flatten_list(objs: Seq<DicomObject>) -> Seq<DicomElement>
    decreases objs,
{
    if objs.len() == 0 {
        Seq::empty()
    } else {
        spec_flatten_obj(objs[0]) + spec_flatten_list(objs.drop_first())
    }
}

/// The kept elements of a concatenation are the concatenation of the
/// kept elements.
proof fn lemma_kept_concat(a: Seq<DicomElement>, b: Seq<DicomElement>)
    ensures
        spec_kept_elems(a + b) == spec_kept_elems(a) + spec_kept_elems(b),
    decreases a.len(),
{
    if a.len() == 0 {
        assert(a + b =~= b);
        assert(spec_kept_elems(a) =~= Seq::<DicomElement>::empty());
        assert(spec_kept_elems(a) + spec_kept_elems(b) =~= spec_kept_elems(b));
    } else {
        lemma_kept_concat(a.drop_first(), b);
        assert((a + b).drop_first() =~= a.drop_first() + b);
        assert((a + b)[0] == a[0]);
        let head: Seq<DicomElement> = if spec_kept(a[0]) {
            seq![a[0]]
        } else {
            Seq::empty()
        };
        assert(spec_kept_elems(a + b) == head + (spec_kept_elems(a.drop_first())
            + spec_kept_elems(b)));
        assert(head + (spec_kept_elems(a.drop_first()) + spec_kept_elems(b)) =~= (head
            + spec_kept_elems(a.drop_first())) + spec_kept_elems(b));
    }
}

/// The kept elements of a single-element stream.
proof fn lemma_kept_one(e: DicomElement)
    ensures
        spec_kept_elems(seq![e]) == (if spec_kept(e) {
            seq![e]
        } else {
            Seq::<DicomElement>::empty()
        }),
{
    assert(seq![e].drop_first() =~= Seq::<DicomElement>::empty());
    assert(spec_kept_elems(Seq::<DicomElement>::empty()) =~= Seq::<DicomElement>::empty());
    assert(seq![e][0] == e);
    if spec_kept(e) {
        assert(spec_kept_elems(seq![e]) =~= seq![e]);
    } else {
        assert(spec_kept_elems(seq![e]) =~= Seq::<DicomElement>::empty());
    }
}

/// Appending one more sibling appends its lay-out.
proof fn lemma_flatten_push(objs: Seq<DicomObject>, o: DicomObject)
    ensures
        spec_flatten_list(objs.push(o)) == spec_flatten_list(objs) + spec_flatten_obj(o),
    decreases objs.len(),
{
    if objs.len() == 0 {
        assert(objs.push(o).drop_first() =~= objs);
        assert(spec_flatten_list(objs.push(o)) =~= spec_flatten_list(objs) + spec_flatten_obj(o));
    } else {
        lemma_flatten_push(objs.drop_first(), o);
        assert(objs.push(o).drop_first() =~= objs.drop_first().push(o));
        assert(objs.push(o)[0] == objs[0]);
        assert(spec_flatten_obj(objs[0]) + (spec_flatten_list(objs.drop_first())
            + spec_flatten_obj(o)) =~= (spec_flatten_obj(objs[0]) + spec_flatten_list(
            objs.drop_first(),
        )) + spec_flatten_obj(o));
    }
}

/// The prefix of a stream that a build step consumed.
pub open spec fn spec_consumed(pre: Seq<DicomElement>, post: Seq<DicomElement>) -> Seq<
    DicomElement,
> {
    pre.subrange(0, pre.len() - post.len())
}

/// Whether a build step peeled elements off the front, leaving a
/// suffix.
pub open spec fn spec_is_suffix_of(post: Seq<DicomElement>, pre: Seq<DicomElement>) -> bool {
    post.len() <= pre.len() && post == pre.subrange(pre.len() - post.len(), pre.len() as int)
}

/// Why a child level stopped with elements left: the next element
/// belongs elsewhere (another depth, a new item, the sequence's
/// delimiter), or the level's closing ItemDelimitationItem was just
/// consumed.
pub open spec fn spec_children_stop(next: DicomElement, depth: int, consumed: Seq<DicomElement>) -> bool {
    ||| next.sq_path@.len() != depth
    ||| next.tag == tags::ITEM
    ||| next.tag == tags::SEQUENCE_DELIMITATION_ITEM
    ||| (consumed.len() > 0 && consumed.last().tag == tags::ITEM_DELIMITATION_ITEM)
}

/// Whether an element opens a sequence frame: a SQ element, or any
/// undefined-length element such as encapsulated PixelData.
fn opens_frame(e: &DicomElement) -> (r: bool)
    ensures
        r == (e.vr == Vr::SQ || e.vl is Undefined),
{
    matches!(e.vr, Vr::SQ) || matches!(e.vl, ValueLength::Undefined)
}

/// Builds the sibling nodes of one level, consuming elements off the
/// front of the stream: elements whose sequence path has the level's
/// depth, stopping (without consuming) at an Item or a sequence
/// delimiter of this depth, and consuming a closing
/// ItemDelimitationItem. The nodes lay back out to exactly the kept
/// elements consumed.
#[verifier::rlimit(100)]
fn build_children(elems: &mut Vec<DicomElement>, depth: usize) -> (r: Vec<DicomObject>)
    ensures
        spec_is_suffix_of(final(elems)@, old(elems)@),
        spec_flatten_list(r@) == spec_kept_elems(spec_consumed(old(elems)@, final(elems)@)),
        final(elems)@.len() > 0 ==> spec_children_stop(
            final(elems)@[0],
            depth as int,
            spec_consumed(old(elems)@, final(elems)@),
        ),
    decreases elems@.len(), 1int,
{
    let ghost pre = elems@;
    let mut objs: Vec<DicomObject> = Vec::new();
    proof {
        assert(pre.subrange(0, 0) =~= Seq::<DicomElement>::empty());
        assert(pre.subrange(pre.len() - pre.len(), pre.len() as int) =~= pre);
    }
    loop
        invariant
            pre == old(elems)@,
            spec_is_suffix_of(elems@, pre),
            spec_flatten_list(objs@) == spec_kept_elems(spec_consumed(pre, elems@)),
        ensures
            elems@.len() == 0 || spec_children_stop(
                elems@[0],
                depth as int,
                spec_consumed(pre, elems@),
            ),
        decreases elems@.len(),
    {
        if elems.len() == 0 {
            break ;
        }
        let stop: bool = {
            let e = &elems[0];
            e.sq_path.len() != depth || e.tag == tags::ITEM || e.tag
                == tags::SEQUENCE_DELIMITATION_ITEM
        };
        if stop {
            break ;
        }
        let ghost mid = elems@;
        let e: DicomElement = elems.remove(0);
        proof {
            assert(elems@ =~= mid.drop_first());
            lemma_step(pre, mid, elems@, e);
        }
        if e.tag == tags::ITEM_DELIMITATION_ITEM {
            proof {
                lemma_accum(pre, mid, elems@, objs@, objs@, e);
                assert(spec_consumed(pre, elems@).last() == e);
            }
            return objs;
        }
        if opens_frame(&e) {
            let next_depth: usize = if depth < usize::MAX {
                depth + 1
            } else {
                depth
            };
            let ghost before_items = elems@;
            let items = build_items(elems, next_depth);
            let node = DicomObject { element: e, items, children: Vec::new() };
            proof {
                assert(spec_flatten_list(node.children@) =~= Seq::<DicomElement>::empty());
                assert(spec_flatten_obj(node) =~= seq![node.element] + spec_flatten_list(
                    node.items@,
                ));
                lemma_flatten_push(objs@, node);
                lemma_suffix_trans(pre, before_items, elems@);
                lemma_consumed_join(pre, mid, before_items, elems@, e);
            }
            objs.push(node);
        } else {
            let node = DicomObject { element: e, items: Vec::new(), children: Vec::new() };
            proof {
                assert(spec_flatten_list(node.items@) =~= Seq::<DicomElement>::empty());
                assert(spec_flatten_list(node.children@) =~= Seq::<DicomElement>::empty());
                assert(spec_flatten_obj(node) =~= seq![node.element]);
                lemma_flatten_push(objs@, node);
                lemma_accum_plain(pre, mid, elems@, e);
            }
            objs.push(node);
        }
    }
    objs
}

/// Builds the item nodes of one sequence, consuming elements off the
/// front: Item elements at the item depth, each followed by its
/// children, until the sequence's delimiter (consumed) or the end of
/// its defined extent (left alone).
#[verifier::rlimit(100)]
fn build_items(elems: &mut Vec<DicomElement>, depth: usize) -> (r: Vec<DicomObject>)
    ensures
        spec_is_suffix_of(final(elems)@, old(elems)@),
        spec_flatten_list(r@) == spec_kept_elems(spec_consumed(old(elems)@, final(elems)@)),
    decreases elems@.len(), 0int,
{
    let ghost pre = elems@;
    let mut objs: Vec<DicomObject> = Vec::new();
    proof {
        assert(pre.subrange(0, 0) =~= Seq::<DicomElement>::empty());
        assert(pre.subrange(pre.len() - pre.len(), pre.len() as int) =~= pre);
    }
    loop
        invariant
            pre == old(elems)@,
            spec_is_suffix_of(elems@, pre),
            spec_flatten_list(objs@) == spec_kept_elems(spec_consumed(pre, elems@)),
        decreases elems@.len(),
    {
        if elems.len() == 0 {
            break ;
        }
        let stop: bool = {
            let e = &elems[0];
            e.sq_path.len() != depth || (e.tag != tags::ITEM && e.tag
                != tags::SEQUENCE_DELIMITATION_ITEM)
        };
        if stop {
            break ;
        }
        let ghost mid = elems@;
        let e: DicomElement = elems.remove(0);
        proof {
            assert(elems@ =~= mid.drop_first());
            lemma_step(pre, mid, elems@, e);
        }
        if e.tag == tags::SEQUENCE_DELIMITATION_ITEM {
            proof {
                lemma_accum(pre, mid, elems@, objs@, objs@, e);
            }
            return objs;
        }
        let ghost before_children = elems@;
        let children = build_children(elems, depth);
        let node = DicomObject { element: e, items: Vec::new(), children };
        proof {
            assert(spec_flatten_list(node.items@) =~= Seq::<DicomElement>::empty());
            assert(seq![node.element] + spec_flatten_list(node.items@) =~= seq![node.element]);
            assert(spec_flatten_obj(node) =~= seq![node.element] + spec_flatten_list(
                node.children@,
            ));
            lemma_flatten_push(objs@, node);
            lemma_suffix_trans(pre, before_children, elems@);
            lemma_consumed_join(pre, mid, before_children, elems@, e);
        }
        objs.push(node);
    }
    objs
}

/// Removing the front element extends the consumed prefix by it.
proof fn lemma_step(pre: Seq<DicomElement>, mid: Seq<DicomElement>, post: Seq<DicomElement>, e: DicomElement)
    requires
        spec_is_suffix_of(mid, pre),
        mid.len() > 0,
        post == mid.drop_first(),
        e == mid[0],
    ensures
        spec_is_suffix_of(post, pre),
        spec_consumed(pre, post) == spec_consumed(pre, mid).push(e),
{
    assert(post =~= pre.subrange(pre.len() - post.len(), pre.len() as int));
    assert(spec_consumed(pre, post) =~= spec_consumed(pre, mid).push(e));
}

/// A suffix of a suffix is a suffix.
proof fn lemma_suffix_trans(a: Seq<DicomElement>, b: Seq<DicomElement>, c: Seq<DicomElement>)
    requires
        spec_is_suffix_of(b, a),
        spec_is_suffix_of(c, b),
    ensures
        spec_is_suffix_of(c, a),
{
    assert(c =~= a.subrange(a.len() - c.len(), a.len() as int));
}

/// After consuming a delimiter, the kept elements are unchanged.
proof fn lemma_accum(
    pre: Seq<DicomElement>,
    mid: Seq<DicomElement>,
    post: Seq<DicomElement>,
    objs_pre: Seq<DicomObject>,
    objs_post: Seq<DicomObject>,
    e: DicomElement,
)
    requires
        spec_consumed(pre, post) == spec_consumed(pre, mid).push(e),
        spec_flatten_list(objs_pre) == spec_kept_elems(spec_consumed(pre, mid)),
        objs_post == objs_pre,
        !spec_kept(e),
    ensures
        spec_flatten_list(objs_post) == spec_kept_elems(spec_consumed(pre, post)),
{
    let c = spec_consumed(pre, mid);
    assert(c.push(e) =~= c + seq![e]);
    lemma_kept_concat(c, seq![e]);
    lemma_kept_one(e);
    assert(spec_kept_elems(c) + Seq::<DicomElement>::empty() =~= spec_kept_elems(c));
}

/// Consuming a kept element with no subtree appends it to the kept
/// prefix.
proof fn lemma_accum_plain(
    pre: Seq<DicomElement>,
    mid: Seq<DicomElement>,
    post: Seq<DicomElement>,
    e: DicomElement,
)
    requires
        spec_consumed(pre, post) == spec_consumed(pre, mid).push(e),
        spec_kept(e),
    ensures
        spec_kept_elems(spec_consumed(pre, post)) == spec_kept_elems(spec_consumed(pre, mid))
            + seq![e],
{
    let c = spec_consumed(pre, mid);
    assert(c.push(e) =~= c + seq![e]);
    lemma_kept_concat(c, seq![e]);
    lemma_kept_one(e);
}

/// Consuming a kept element and then its whole subtree appends the
/// element and the subtree's kept elements.
proof fn lemma_consumed_join(
    pre: Seq<DicomElement>,
    mid: Seq<DicomElement>,
    before_sub: Seq<DicomElement>,
    post: Seq<DicomElement>,
    e: DicomElement,
)
    requires
        spec_consumed(pre, before_sub) == spec_consumed(pre, mid).push(e),
        spec_is_suffix_of(before_sub, pre),
        spec_is_suffix_of(post, before_sub),
        spec_kept(e),
    ensures
        spec_is_suffix_of(post, pre),
        spec_kept_elems(spec_consumed(pre, post)) == spec_kept_elems(spec_consumed(pre, mid)) + (
        seq![e] + spec_kept_elems(spec_consumed(before_sub, post))),
{
    lemma_suffix_trans(pre, before_sub, post);
    let c_mid = spec_consumed(pre, mid);
    let c_before = spec_consumed(pre, before_sub);
    let c_post = spec_consumed(pre, post);
    let sub = spec_consumed(before_sub, post);
    assert(c_post =~= c_before + sub);
    lemma_kept_concat(c_before, sub);
    assert(c_before =~= c_mid + seq![e]);
    lemma_kept_concat(c_mid, seq![e]);
    lemma_kept_one(e);
    assert((spec_kept_elems(c_mid) + seq![e]) + spec_kept_elems(sub) =~= spec_kept_elems(c_mid) + (
    seq![e] + spec_kept_elems(sub)));
}

impl DicomRoot {
    /// Folds a whole element stream into a tree, consuming it.
    /// Flattening the tree yields exactly the covered stream's elements
    /// with the delimiters gone: parse, build and flatten agree with
    /// parse alone. A well-formed stream (every top-level element at
    /// depth zero, items only inside sequences) is covered whole.
    pub fn build(ts: TransferSyntax, cs: CharSet, elems: Vec<DicomElement>) -> (r: DicomRoot)
        ensures
            r.ts == ts,
            r.cs == cs,
            0 <= r.extent@ <= elems@.len(),
            spec_flatten_list(r.children@) == spec_kept_elems(elems@.subrange(0, r.extent@)),
            r.extent@ < elems@.len() ==> spec_children_stop(
                elems@[r.extent@],
                0,
                elems@.subrange(0, r.extent@),
            ),
    {
        let mut v = elems;
        let ghost pre = v@;
        let children = build_children(&mut v, 0);
        let ghost extent = pre.len() - v@.len();
        proof {
            if v@.len() > 0 {
                assert(elems@[extent] == v@[0]);
                assert(spec_consumed(pre, v@) =~= elems@.subrange(0, extent));
            }
        }
        DicomRoot { ts, cs, children, extent: Ghost(extent) }
    }

    /// Reads a whole stream from a parser and builds its tree:
    /// succeeds exactly when the parser reaches the end of its source
    /// without an error, with the dataset's transfer syntax and
    /// charset on the root.
    pub fn parse(parser: &mut Parser) -> (r: Result<DicomRoot, ParseError>)
        requires
            old(parser).wf(),
        ensures
            final(parser).wf(),
            r is Ok <==> final(parser).error == old(parser).error,
            match r {
                Ok(root) => root.ts == final(parser).dataset_ts && root.cs == final(parser).cs
                    && final(parser).iterator_ended,
                Err(e) => final(parser).error == Some(e) && old(parser).error is None
                    && spec_parse_err_cause(*final(parser), e),
            },
    {
        let elems = match parser.read_all() {
            Ok(es) => es,
            Err(err) => {
                return Err(err);
            },
        };
        let ts: TransferSyntax = parser.dataset_ts;
        let cs: CharSet = parser.cs;
        Ok(DicomRoot::build(ts, cs, elems))
    }

    /// Lays the tree back out in emission order, consuming it.
    pub fn flatten(self) -> (r: Vec<DicomElement>)
        ensures
            r@ == spec_flatten_list(self.children@),
    {
        let mut out: Vec<DicomElement> = Vec::new();
        flatten_into(self.children, &mut out);
        out
    }

    /// The last top-level node whose element has the given tag, if any
    /// is present: a later occurrence of a repeated attribute shadows
    /// the earlier ones.
    pub fn get_child_by_tag(&self, tag: u32) -> (r: Option<&DicomObject>)
        ensures
            match r {
                Some(obj) => obj.element.tag == tag && exists|i: int|
                    0 <= i < self.children@.len() && #[trigger] self.children@[i] == *obj && (
                    forall|j: int|
                        i < j < self.children@.len() ==> (#[trigger] self.children@[j]).element.tag
                            != tag),
                None => forall|i: int|
                    0 <= i < self.children@.len() ==> (#[trigger] self.children@[i]).element.tag
                        != tag,
            },
    {
        let n: usize = self.children.len();
        let mut i: usize = n;
        while i > 0
            invariant
                0 <= i <= n,
                n == self.children@.len(),
                forall|k: int|
                    i <= k < n ==> (#[trigger] self.children@[k]).element.tag != tag,
            decreases i,
        {
            i -= 1;
            if self.children[i].element.tag == tag {
                return Some(&self.children[i]);
            }
        }
        None
    }

    /// The trimmed text value of the last top-level element with the
    /// given tag, if present.
    pub fn get_text_by_tag(&self, tag: u32) -> (r: Option<Vec<u8>>)
        ensures
            match r {
                Some(v) => exists|i: int|
                    0 <= i < self.children@.len() && {
                        let e = (#[trigger] self.children@[i]).element;
                        e.tag == tag && v@ == e.data@.subrange(
                            0,
                            crate::element::spec_trimmed_len(e.data@, 0x20),
                        ) && (forall|j: int|
                            i < j < self.children@.len() ==> (
                            #[trigger] self.children@[j]).element.tag != tag)
                    },
                None => forall|i: int|
                    0 <= i < self.children@.len() ==> (#[trigger] self.children@[i]).element.tag
                        != tag,
            },
    {
        match self.get_child_by_tag(tag) {
            Some(obj) => Some(
                crate::element::trim_trailing(obj.element.data.as_slice(), 0x20),
            ),
            None => None,
        }
    }
}

/// Appends a node list's lay-out, consuming it.
fn flatten_into(objs: Vec<DicomObject>, out: &mut Vec<DicomElement>)
    ensures
        final(out)@ == old(out)@ + spec_flatten_list(objs@),
    decreases objs,
{
    let ghost pre = objs@;
    let mut v = objs;
    proof {
        assert(pre.subrange(0, 0) =~= Seq::<DicomObject>::empty());
        assert(old(out)@ + spec_flatten_list(pre.subrange(0, 0)) =~= old(out)@);
    }
    loop
        invariant
            pre == objs@,
            v@.len() <= pre.len(),
            v@ == pre.subrange(pre.len() - v@.len(), pre.len() as int),
            out@ == old(out)@ + spec_flatten_list(pre.subrange(0, pre.len() - v@.len())),
        ensures
            v@.len() == 0,
            out@ == old(out)@ + spec_flatten_list(pre.subrange(0, pre.len() as int)),
        decreases v@.len(),
    {
        if v.len() == 0 {
            break ;
        }
        let ghost mid = v@;
        let o: DicomObject = v.remove(0);
        proof {
            assert(v@ =~= mid.drop_first());
            assert(v@ =~= pre.subrange(pre.len() - v@.len(), pre.len() as int));
        }
        let ghost c0 = pre.len() - mid.len();
        proof {
            assert(o == pre[c0]);
        }
        proof {
            assert(decreases_to!(objs => objs@));
            assert(decreases_to!(objs@ => objs@[c0]));
            assert(objs@[c0] == o);
        }
        out.push(o.element);
        flatten_into(o.items, out);
        flatten_into(o.children, out);
        proof {
            assert(pre.subrange(0, c0 + 1).drop_last() =~= pre.subrange(0, c0));
            lemma_flatten_push(pre.subrange(0, c0), pre[c0]);
            assert(pre.subrange(0, c0).push(pre[c0]) =~= pre.subrange(0, c0 + 1));
            assert(out@ =~= old(out)@ + spec_flatten_list(pre.subrange(0, c0 + 1)));
        }
    }
    assert(pre.subrange(0, pre.len() as int) =~= pre);
}

} // verus!
