//! The application state: the grid, the render-pass counter and the renderer
//! attached to the open stream, if any.
use crate::markup::{grid_html, grid_markup, preamble};
use crate::renderer::{render_chunks, shell_chunks, Renderer};
use crate::sink::Sink;
use futures_channel::mpsc::Receiver;
use vstd::prelude::*;

verus! {

/// Amount by which one hover raises a cell.
pub const STEP: usize = 5;

/// Room for undelivered chunks in each stream.
pub const STREAM_CAPACITY: usize = 1000;

/// Every cell of `g` holds zero.
pub open spec fn is_zero_grid(g: [[usize; 10]; 10]) -> bool {
    forall|i: int, j: int| 0 <= i < 10 && 0 <= j < 10 ==> #[trigger] g[i][j] == 0
}

/// `g` with cell `(x, y)` raised by `STEP` and every other cell kept.
pub open spec fn bumped(g: [[usize; 10]; 10], old_g: [[usize; 10]; 10], x: nat, y: nat) -> bool {
    forall|i: int, j: int|
        0 <= i < 10 && 0 <= j < 10 ==> #[trigger] g[i][j] as int == if i == x && j == y {
            old_g[i][j] + STEP
        } else {
            old_g[i][j] as int
        }
}

/// Two renders on one renderer reach the sink in the order they were made:
/// the chunks of the first occupy the positions just after what was sent
/// before, and those of the second come right after them.
pub proof fn lemma_renders_in_order(r0: Renderer, r1: Renderer, r2: Renderer, h1: Seq<char>, h2: Seq<char>)
    requires
        r1.sent() == r0.sent() + render_chunks(r0.root_id(), r0.next_id(), h1),
        r2.sent() == r1.sent() + render_chunks(r1.root_id(), r1.next_id(), h2),
    ensures
        ({
            let n = r0.sent().len() as int;
            let c1 = render_chunks(r0.root_id(), r0.next_id(), h1);
            let c2 = render_chunks(r1.root_id(), r1.next_id(), h2);
            &&& r2.sent().subrange(0, n) == r0.sent()
            &&& r2.sent().subrange(n, n + c1.len()) == c1
            &&& r2.sent().subrange(n + c1.len(), r2.sent().len() as int) == c2
        }),
{
    let n = r0.sent().len() as int;
    let c1 = render_chunks(r0.root_id(), r0.next_id(), h1);
    let c2 = render_chunks(r1.root_id(), r1.next_id(), h2);
    assert(r2.sent().subrange(0, n) =~= r0.sent());
    assert(r2.sent().subrange(n, n + c1.len()) =~= c1);
    assert(r2.sent().subrange(n + c1.len(), r2.sent().len() as int) =~= c2);
}

/// Grid, render-pass counter and the renderer of the current stream.
pub struct State {
    grid: [[usize; 10]; 10],
    renderer: Option<Renderer>,
    uuid: usize,
}

impl State {
    /// The grid's cell values.
    pub closed spec fn grid(&self) -> [[usize; 10]; 10] {
        self.grid
    }

    /// The number of the next render pass.
    pub closed spec fn pass(&self) -> nat {
        self.uuid as nat
    }

    /// The renderer of the current stream, if one is attached.
    pub closed spec fn renderer(&self) -> Option<Renderer> {
        self.renderer
    }

    /// An attached renderer is consistent.
    pub open spec fn wf(&self) -> bool {
        self.renderer() is Some ==> self.renderer()->0.wf()
    }

    /// Whether `update(x, y)` stays within the machine's integers: the cell
    /// can take another step and, when a renderer is attached, the pass
    /// counter can take another pass and the renderer two more mounts.
    pub open spec fn update_fits_spec(&self, x: nat, y: nat) -> bool {
        &&& x < 10
        &&& y < 10
        &&& self.grid()[x as int][y as int] + STEP <= usize::MAX
        &&& self.renderer() is Some ==> {
            &&& self.pass() < usize::MAX
            &&& self.renderer()->0.next_id() + 2 <= usize::MAX
        }
    }

    /// A state with an all-zero grid, pass `0` and no renderer.
    pub fn new() -> (r: State)
        ensures
            r.wf(),
            is_zero_grid(r.grid()),
            r.pass() == 0,
            r.renderer() is None,
    {
        State { grid: [[0usize; 10]; 10], renderer: None, uuid: 0 }
    }

    /// Draws the grid in the current render pass, then starts the next pass.
    pub fn html(&mut self) -> (r: String)
        requires
            old(self).pass() < usize::MAX,
        ensures
            r@ == grid_html(old(self).grid(), old(self).pass()),
            final(self).pass() == old(self).pass() + 1,
            final(self).grid() == old(self).grid(),
            final(self).renderer() == old(self).renderer(),
    {
        let html = grid_markup(&self.grid, self.uuid);
        self.uuid = self.uuid + 1;
        html
    }

    /// Tells whether `update(x, y)` may be called.
    pub fn update_fits(&self, x: usize, y: usize) -> (r: bool)
        ensures
            r == self.update_fits_spec(x as nat, y as nat),
    {
        if x >= 10 || y >= 10 || self.grid[x][y] > usize::MAX - STEP {
            return false;
        }
        match &self.renderer {
            Some(renderer) => self.uuid < usize::MAX && renderer.next_id_below(usize::MAX - 2),
            None => true,
        }
    }

    /// Raises cell `(x, y)` by `STEP` and, when a renderer is attached, draws
    /// the grid in the next render pass and makes the drawing its root. With
    /// no renderer the change is only kept for the next stream.
    pub fn update(&mut self, x: usize, y: usize)
        requires
            old(self).wf(),
            old(self).update_fits_spec(x as nat, y as nat),
        ensures
            final(self).wf(),
            bumped(final(self).grid(), old(self).grid(), x as nat, y as nat),
            old(self).renderer() is None ==> final(self).renderer() is None,
            old(self).renderer() is None ==> final(self).pass() == old(self).pass(),
            old(self).renderer() is Some ==> final(self).pass() == old(self).pass() + 1,
            old(self).renderer() is Some ==> {
                let (before, after) = (old(self).renderer()->0, final(self).renderer()->0);
                &&& final(self).renderer() is Some
                &&& after.next_id() == before.next_id() + 2
                &&& after.root_id() == before.next_id() + 1
                &&& after.sent() == before.sent() + render_chunks(
                    before.root_id(),
                    before.next_id(),
                    grid_html(final(self).grid(), old(self).pass()),
                )
            },
    {
        let mut row = self.grid[x];
        row[y] = row[y] + STEP;
        self.grid[x] = row;
        if self.renderer.is_some() {
            let html = self.html();
            if let Some(renderer) = &mut self.renderer {
                renderer.render(html);
            }
        }
    }

    /// Opens a new stream, writes the document's head into it, attaches a
    /// fresh renderer to it (dropping any previous one) and renders the grid
    /// as its first root. Returns the stream's receiving end.
    pub fn create_renderer(&mut self) -> (rx: Receiver<String>)
        requires
            old(self).pass() < usize::MAX,
        ensures
            final(self).wf(),
            final(self).grid() == old(self).grid(),
            final(self).pass() == old(self).pass() + 1,
            final(self).renderer() is Some,
            final(self).renderer()->0.next_id() == 3,
            final(self).renderer()->0.root_id() == 2,
            final(self).renderer()->0.capacity() == STREAM_CAPACITY,
            final(self).renderer()->0.sent() == seq![preamble()] + shell_chunks() + render_chunks(
                0,
                1,
                grid_html(old(self).grid(), old(self).pass()),
            ),
    {
        let (mut sink, rx) = Sink::open(STREAM_CAPACITY);
        sink.enqueue(
            String::from_str(
                "<!DOCTYPE html>\n<head>\n    <title>Hello streaming</title>\n</head>\n<body>",
            ),
        );
        let mut renderer = Renderer::new(sink);
        let html = self.html();
        renderer.render(html);
        self.renderer = Some(renderer);
        rx
    }

    /// The value of cell `(x, y)`.
    pub fn cell(&self, x: usize, y: usize) -> (r: usize)
        requires
            x < 10,
            y < 10,
        ensures
            r == self.grid()[x as int][y as int],
    {
        self.grid[x][y]
    }

    /// The number of the next render pass.
    pub fn render_pass(&self) -> (r: usize)
        ensures
            r == self.pass(),
    {
        self.uuid
    }

    /// Whether a renderer is attached.
    pub fn has_renderer(&self) -> (r: bool)
        ensures
            r == self.renderer() is Some,
    {
        self.renderer.is_some()
    }

    /// Clears every cell of the grid; the pass counter and the renderer stay.
    pub fn reset(&mut self)
        ensures
            is_zero_grid(final(self).grid()),
            final(self).pass() == old(self).pass(),
            final(self).renderer() == old(self).renderer(),
    {
        self.grid = [[0usize; 10]; 10];
    }
}

} // verus!
