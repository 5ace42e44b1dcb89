//! The incremental renderer: numbered slots in an append-only document, and
//! the replacement of a slot's content by a fragment written after it.
use crate::decimal::{dec, push_decimal};
use crate::sink::Sink;
use vstd::prelude::*;

verus! {

/// Opens the isolated scope that holds the document's first slot.
pub open spec fn shell_open() -> Seq<char> {
    "<div><template shadowrootmode=\"open\">"@
}

/// Closes the shell's scope and its container.
pub open spec fn shell_close() -> Seq<char> {
    "</template></div>"@
}

/// Opens the slot named after mount `id`.
pub open spec fn slot_open(id: nat) -> Seq<char> {
    "<slot name=\"dioxus-"@ + dec(id) + "\">"@
}

/// Closes a slot.
pub open spec fn slot_close() -> Seq<char> {
    "</slot>"@
}

/// Opens an element projected into the slot of mount `id`, with a fresh
/// isolated scope inside it.
pub open spec fn wrapper_open(id: nat) -> Seq<char> {
    "<div slot=\"dioxus-"@ + dec(id) + "\"><template shadowrootmode=\"open\">"@
}

/// Closes the scope opened by a wrapper.
pub open spec fn template_close() -> Seq<char> {
    "</template>"@
}

/// The invisible marker that stands in a root while its previous content is
/// being retired.
pub open spec fn placeholder() -> Seq<char> {
    "<div style=\"display: none\"></div>"@
}

/// Closes the two wrapper elements left open by the previous generation.
pub open spec fn retire() -> Seq<char> {
    "</div></div>"@
}

/// The chunks written when a renderer starts: one empty slot, mount `0`.
pub open spec fn shell_chunks() -> Seq<Seq<char>> {
    seq![shell_open(), slot_open(0), slot_close(), shell_close()]
}

/// The chunks written when the content of mount `target` is replaced by
/// `html`, which then lives under the new mount `fresh`.
pub open spec fn replace_chunks(target: nat, fresh: nat, html: Seq<char>) -> Seq<Seq<char>> {
    seq![wrapper_open(target), slot_open(fresh), html, slot_close(), template_close()]
}

/// The chunks written when root `root` is replaced by `html` in two steps,
/// with `next` the first mount number not yet issued: first a placeholder
/// under mount `next`, then `html` under mount `next + 1`.
pub open spec fn render_chunks(root: nat, next: nat, html: Seq<char>) -> Seq<Seq<char>> {
    replace_chunks(root, next, placeholder()) + seq![retire()] + replace_chunks(
        next,
        next + 1,
        html,
    )
}

/// The mount numbers `0, 1, ..., n - 1`, in order.
pub open spec fn first_ids(n: nat) -> Seq<nat> {
    Seq::new(n, |k: int| k as nat)
}

/// Mount numbers are issued in strictly increasing order starting at `0`,
/// with no gaps and no repeats, and each is below the next one to be issued.
pub proof fn lemma_issued_consecutive(r: &Renderer)
    requires
        r.ids_ok(),
    ensures
        r.issued().len() == r.next_id(),
        forall|k: int| 0 <= k < r.issued().len() ==> #[trigger] r.issued()[k] == k,
        forall|a: int, b: int| 0 <= a < b < r.issued().len() ==> r.issued()[a] < r.issued()[b],
        forall|k: int| 0 <= k < r.issued().len() ==> #[trigger] r.issued()[k] < r.next_id(),
{
}

/// A replacement writes its fragment verbatim as exactly one chunk, at the
/// third position; the other four chunks do not depend on the fragment.
pub proof fn lemma_fragment_verbatim(target: nat, fresh: nat, html: Seq<char>, other: Seq<char>)
    ensures
        replace_chunks(target, fresh, html).len() == 5,
        replace_chunks(target, fresh, html)[2] == html,
        forall|k: int|
            0 <= k < 5 && k != 2 ==> #[trigger] replace_chunks(target, fresh, html)[k]
                == replace_chunks(target, fresh, other)[k],
{
}

/// A named insertion point of the document.
#[derive(PartialEq, Eq, Structural, Clone, Copy, Debug)]
pub struct Mount {
    pub id: usize,
}

/// Writes markup into one sink and keeps track of the mounts it issued and
/// of the root, the mount whose content is the visible document.
pub struct Renderer {
    last_mount: usize,
    sink: Sink,
    root: Mount,
    issued: Ghost<Seq<nat>>,
}

impl Renderer {
    /// The first mount number not yet issued.
    pub closed spec fn next_id(&self) -> nat {
        self.last_mount as nat
    }

    /// The mount that holds the visible document.
    pub closed spec fn root_id(&self) -> nat {
        self.root.id as nat
    }

    /// Every mount number issued so far, in the order of issue.
    pub closed spec fn issued(&self) -> Seq<nat> {
        self.issued@
    }

    /// Every chunk handed to the sink so far, oldest first.
    pub closed spec fn sent(&self) -> Seq<Seq<char>> {
        self.sink@
    }

    /// The capacity of the sink the renderer writes into.
    pub closed spec fn capacity(&self) -> nat {
        self.sink.capacity()
    }

    /// The mounts issued are exactly `0 .. next_id()`, in order.
    pub closed spec fn ids_ok(&self) -> bool {
        self.issued@ == first_ids(self.last_mount as nat)
    }

    /// The renderer is consistent: its issue record matches its counter and
    /// the root is a mount it issued.
    pub open spec fn wf(&self) -> bool {
        &&& self.ids_ok()
        &&& self.issued().len() == self.next_id()
        &&& self.root_id() < self.next_id()
    }

    /// Tells whether fewer than `bound` mounts have been issued.
    pub fn next_id_below(&self, bound: usize) -> (r: bool)
        ensures
            r == (self.next_id() <= bound),
    {
        self.last_mount <= bound
    }

    /// Starts a renderer on `sink`: writes an isolated scope holding one
    /// empty slot, whose mount, number `0`, becomes the root.
    pub fn new(sink: Sink) -> (r: Renderer)
        ensures
            r.wf(),
            r.next_id() == 1,
            r.root_id() == 0,
            r.sent() == sink@ + shell_chunks(),
            r.capacity() == sink.capacity(),
    {
        let mut myself = Renderer {
            last_mount: 0,
            sink,
            root: Mount { id: 0 },
            issued: Ghost(Seq::empty()),
        };
        assert(myself.issued@ =~= first_ids(0));
        myself.sink.enqueue(String::from_str("<div><template shadowrootmode=\"open\">"));
        let mount = myself.start_slot();
        myself.end_slot();
        myself.sink.enqueue(String::from_str("</template></div>"));
        myself.root = mount;
        assert(myself.sent() =~= sink@ + shell_chunks());
        myself
    }

    /// Replaces the visible document by `html`: the root's content is first
    /// retired behind a placeholder, whose wrappers are then closed, and
    /// `html` is then written under a new root.
    pub fn render(&mut self, html: String)
        requires
            old(self).wf(),
            old(self).next_id() + 2 <= usize::MAX,
        ensures
            final(self).wf(),
            final(self).next_id() == old(self).next_id() + 2,
            final(self).root_id() == old(self).next_id() + 1,
            final(self).capacity() == old(self).capacity(),
            final(self).sent() == old(self).sent() + render_chunks(
                old(self).root_id(),
                old(self).next_id(),
                html@,
            ),
    {
        let root = Mount { id: self.root.id };
        let segments = String::from_str("<div style=\"display: none\"></div>");
        let root = self.replace(root, segments);
        self.sink.enqueue(String::from_str("</div></div>"));
        self.root = self.replace(root, html);
        assert(self.sent() =~= old(self).sent() + render_chunks(
            old(self).root_id(),
            old(self).next_id(),
            html@,
        ));
    }

    /// Issues the next mount number.
    pub fn mount(&mut self) -> (r: Mount)
        requires
            old(self).ids_ok(),
            old(self).next_id() < usize::MAX,
        ensures
            final(self).ids_ok(),
            r.id == old(self).next_id(),
            final(self).next_id() == old(self).next_id() + 1,
            final(self).issued() == old(self).issued().push(r.id as nat),
            final(self).root_id() == old(self).root_id(),
            final(self).capacity() == old(self).capacity(),
            final(self).sent() == old(self).sent(),
    {
        let mount = self.last_mount;
        self.last_mount = self.last_mount + 1;
        self.issued = Ghost(self.issued@.push(mount as nat));
        assert(self.issued@ =~= first_ids(self.last_mount as nat));
        Mount { id: mount }
    }

    /// Issues the next mount number and opens its slot.
    pub fn start_slot(&mut self) -> (r: Mount)
        requires
            old(self).ids_ok(),
            old(self).next_id() < usize::MAX,
        ensures
            final(self).ids_ok(),
            r.id == old(self).next_id(),
            final(self).next_id() == old(self).next_id() + 1,
            final(self).issued() == old(self).issued().push(r.id as nat),
            final(self).root_id() == old(self).root_id(),
            final(self).capacity() == old(self).capacity(),
            final(self).sent() == old(self).sent().push(slot_open(r.id as nat)),
    {
        let mount = self.mount();
        let mut text = String::from_str("<slot name=\"dioxus-");
        push_decimal(&mut text, mount.id);
        text.append("\">");
        self.sink.enqueue(text);
        mount
    }

    /// Closes the innermost open slot.
    pub fn end_slot(&mut self)
        ensures
            final(self).sent() == old(self).sent().push(slot_close()),
            final(self).ids_ok() == old(self).ids_ok(),
            final(self).next_id() == old(self).next_id(),
            final(self).issued() == old(self).issued(),
            final(self).root_id() == old(self).root_id(),
            final(self).capacity() == old(self).capacity(),
    {
        self.sink.enqueue(String::from_str("</slot>"));
    }

    /// Replaces the content of `mount` by `html`, written verbatim inside a
    /// slot of a newly issued mount, which is returned: it names the new
    /// content for any later replacement.
    pub fn replace(&mut self, mount: Mount, html: String) -> (r: Mount)
        requires
            old(self).ids_ok(),
            old(self).next_id() < usize::MAX,
        ensures
            final(self).ids_ok(),
            r.id == old(self).next_id(),
            final(self).next_id() == old(self).next_id() + 1,
            final(self).issued() == old(self).issued().push(r.id as nat),
            final(self).root_id() == old(self).root_id(),
            final(self).capacity() == old(self).capacity(),
            final(self).sent() == old(self).sent() + replace_chunks(
                mount.id as nat,
                r.id as nat,
                html@,
            ),
            forall|k: int| 0 <= k < old(self).issued().len() ==> old(self).issued()[k] < r.id,
    {
        let mut open = String::from_str("<div slot=\"dioxus-");
        push_decimal(&mut open, mount.id);
        open.append("\"><template shadowrootmode=\"open\">");
        self.sink.enqueue(open);
        let fresh = self.start_slot();
        let ghost text = html@;
        self.sink.enqueue(html);
        self.end_slot();
        self.sink.enqueue(String::from_str("</template>"));
        assert(self.sent() =~= old(self).sent() + replace_chunks(
            mount.id as nat,
            fresh.id as nat,
            text,
        ));
        fresh
    }
}

} // verus!
