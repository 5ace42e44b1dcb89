use futures_channel::mpsc::Receiver;
use streaming_slots::decimal::push_decimal;
use streaming_slots::markup::grid_markup;
use streaming_slots::renderer::{Mount, Renderer};
use streaming_slots::sink::Sink;
use streaming_slots::state::State;

const PREAMBLE: &str = "<!DOCTYPE html>\n<head>\n    <title>Hello streaming</title>\n</head>\n<body>";
const GRID_OPEN: &str = "<div style=\"display: grid; grid-template-columns: repeat(10, 1fr); grid-template-rows: repeat(10, 1fr); width: 400px; height: 400px;\">";

fn drain(rx: &mut Receiver<String>) -> Vec<String> {
    let mut out = Vec::new();
    while let Ok(Some(chunk)) = rx.try_next() {
        out.push(chunk);
    }
    out
}

fn cell(i: usize, j: usize, pass: usize, value: usize) -> String {
    format!(
        "<div id=\"grid-{i}-{j}-{pass}\" style=\"width: 100%; height: 100%; background-color: rgb(0%, {value}%, 0%);\">\n                <style>\n                #grid-{i}-{j}-{pass}:hover {{\n                    background-image: url(\"/hover/{i}/{j}/{pass}\");\n                }}\n                </style>\n                </div>"
    )
}

fn expected_grid(values: &[[usize; 10]; 10], pass: usize) -> String {
    let mut s = String::from(GRID_OPEN);
    for i in 0..10 {
        for j in 0..10 {
            s.push_str(&cell(i, j, pass, values[i][j]));
        }
    }
    s.push_str("</div>");
    s
}

fn replace_chunks(target: usize, fresh: usize, html: &str) -> Vec<String> {
    vec![
        format!("<div slot=\"dioxus-{target}\"><template shadowrootmode=\"open\">"),
        format!("<slot name=\"dioxus-{fresh}\">"),
        html.to_string(),
        "</slot>".to_string(),
        "</template>".to_string(),
    ]
}

fn render_chunks(root: usize, next: usize, html: &str) -> Vec<String> {
    let mut v = replace_chunks(root, next, "<div style=\"display: none\"></div>");
    v.push("</div></div>".to_string());
    v.extend(replace_chunks(next, next + 1, html));
    v
}

fn shell_chunks() -> Vec<String> {
    vec![
        "<div><template shadowrootmode=\"open\">".to_string(),
        "<slot name=\"dioxus-0\">".to_string(),
        "</slot>".to_string(),
        "</template></div>".to_string(),
    ]
}

#[test]
fn decimal_spellings() {
    for (n, want) in [(0usize, "0"), (7, "7"), (10, "10"), (1234, "1234"), (1000000, "1000000")] {
        let mut s = String::from("x");
        push_decimal(&mut s, n);
        assert_eq!(s, format!("x{want}"));
    }
    let mut s = String::new();
    push_decimal(&mut s, usize::MAX);
    assert_eq!(s, usize::MAX.to_string());
}

#[test]
fn sink_keeps_order() {
    let (mut sink, mut rx) = Sink::open(10);
    sink.enqueue("a".to_string());
    sink.enqueue("b".to_string());
    sink.enqueue("c".to_string());
    assert_eq!(drain(&mut rx), vec!["a", "b", "c"]);
}

#[test]
fn sink_drops_when_full_without_blocking() {
    let (mut sink, mut rx) = Sink::open(4);
    for k in 0..3000usize {
        sink.enqueue(k.to_string());
    }
    let got = drain(&mut rx);
    assert!(got.len() >= 4 && got.len() < 3000);
    for (k, chunk) in got.iter().enumerate() {
        assert_eq!(chunk, &k.to_string());
    }
}

#[test]
fn sink_tolerates_gone_receiver() {
    let (mut sink, rx) = Sink::open(4);
    drop(rx);
    for k in 0..10usize {
        sink.enqueue(k.to_string());
    }
}

#[test]
fn renderer_shell() {
    let (sink, mut rx) = Sink::open(100);
    let _r = Renderer::new(sink);
    assert_eq!(drain(&mut rx), shell_chunks());
}

#[test]
fn mounts_are_consecutive() {
    let (sink, _rx) = Sink::open(100);
    let mut r = Renderer::new(sink);
    for want in 1..20usize {
        assert_eq!(r.mount(), Mount { id: want });
    }
}

#[test]
fn replace_writes_fragment_once() {
    let (sink, mut rx) = Sink::open(100);
    let mut r = Renderer::new(sink);
    drain(&mut rx);
    let m = r.replace(Mount { id: 0 }, "<p>hi</p>".to_string());
    assert_eq!(m, Mount { id: 1 });
    let got = drain(&mut rx);
    assert_eq!(got, replace_chunks(0, 1, "<p>hi</p>"));
    assert_eq!(got.iter().filter(|c| c.contains("<p>hi</p>")).count(), 1);
    let m2 = r.replace(m, "<b>x</b>".to_string());
    assert_eq!(m2, Mount { id: 2 });
    assert_eq!(drain(&mut rx), replace_chunks(1, 2, "<b>x</b>"));
}

#[test]
fn render_retires_then_replaces() {
    let (sink, mut rx) = Sink::open(100);
    let mut r = Renderer::new(sink);
    drain(&mut rx);
    r.render("<p>one</p>".to_string());
    assert_eq!(drain(&mut rx), render_chunks(0, 1, "<p>one</p>"));
    r.render("<p>two</p>".to_string());
    assert_eq!(drain(&mut rx), render_chunks(2, 3, "<p>two</p>"));
}

#[test]
fn grid_markup_exact() {
    let mut g = [[0usize; 10]; 10];
    g[2][7] = 35;
    assert_eq!(grid_markup(&g, 12), expected_grid(&g, 12));
}

#[test]
fn html_ids_change_between_passes() {
    let mut s = State::new();
    let first = s.html();
    let second = s.html();
    assert_eq!(s.render_pass(), 2);
    assert!(first.contains("id=\"grid-4-5-0\""));
    assert!(second.contains("id=\"grid-4-5-1\""));
    assert!(!second.contains("grid-4-5-0"));
    assert_eq!(first, expected_grid(&[[0; 10]; 10], 0));
}

#[test]
fn update_raises_one_cell() {
    let mut s = State::new();
    assert!(s.update_fits(3, 4));
    s.update(3, 4);
    s.update(3, 4);
    s.update(9, 0);
    for i in 0..10 {
        for j in 0..10 {
            let want = if (i, j) == (3, 4) { 10 } else if (i, j) == (9, 0) { 5 } else { 0 };
            assert_eq!(s.cell(i, j), want);
        }
    }
    assert_eq!(s.render_pass(), 0);
    assert!(!s.has_renderer());
}

#[test]
fn update_with_renderer_starts_a_new_pass() {
    let mut s = State::new();
    let _rx = s.create_renderer();
    assert_eq!(s.render_pass(), 1);
    s.update(0, 0);
    assert_eq!(s.render_pass(), 2);
    assert_eq!(s.cell(0, 0), 5);
}

#[test]
fn update_without_renderer_shows_in_next_stream() {
    let mut s = State::new();
    s.update(6, 2);
    let mut rx = s.create_renderer();
    let got = drain(&mut rx);
    let mut g = [[0usize; 10]; 10];
    g[6][2] = 5;
    assert_eq!(got[13], expected_grid(&g, 0));
}

#[test]
fn update_fits_rejects_out_of_range() {
    let s = State::new();
    assert!(!s.update_fits(10, 0));
    assert!(!s.update_fits(0, 10));
    assert!(s.update_fits(9, 9));
}

#[test]
fn first_request_streams_preamble_shell_and_grid() {
    let mut s = State::new();
    s.reset();
    let mut rx = s.create_renderer();
    let got = drain(&mut rx);
    let mut want = vec![PREAMBLE.to_string()];
    want.extend(shell_chunks());
    want.extend(render_chunks(0, 1, &expected_grid(&[[0; 10]; 10], 0)));
    assert_eq!(got, want);
    assert_eq!(got[13].matches("rgb(0%, 0%, 0%)").count(), 100);
}

#[test]
fn hover_pushes_new_frame_into_open_stream() {
    let mut s = State::new();
    s.reset();
    let mut rx = s.create_renderer();
    drain(&mut rx);
    s.update(3, 4);
    let got = drain(&mut rx);
    let mut g = [[0usize; 10]; 10];
    g[3][4] = 5;
    assert_eq!(got, render_chunks(2, 3, &expected_grid(&g, 1)));
    assert_eq!(got[8].matches("rgb(0%, 0%, 0%)").count(), 99);
    assert!(got[8].contains(&cell(3, 4, 1, 5)));
}

#[test]
fn updates_arrive_in_order() {
    let mut s = State::new();
    let mut rx = s.create_renderer();
    drain(&mut rx);
    s.update(1, 2);
    s.update(1, 2);
    let got = drain(&mut rx);
    assert_eq!(got.len(), 22);
    assert!(got[8].contains(&cell(1, 2, 1, 5)));
    assert!(got[19].contains(&cell(1, 2, 2, 10)));
}

#[test]
fn second_request_resets_and_orphans_first_stream() {
    let mut s = State::new();
    s.reset();
    let mut rx1 = s.create_renderer();
    s.update(3, 4);
    drain(&mut rx1);
    s.reset();
    let mut rx2 = s.create_renderer();
    s.update(1, 1);
    assert_eq!(drain(&mut rx1), Vec::<String>::new());
    assert_eq!(rx1.try_next().ok(), Some(None));
    let got = drain(&mut rx2);
    assert_eq!(got.len(), 16 + 11);
    assert_eq!(got[0], PREAMBLE);
    assert_eq!(got[13], expected_grid(&[[0; 10]; 10], 2));
    let mut g = [[0usize; 10]; 10];
    g[1][1] = 5;
    assert_eq!(got[16 + 8], expected_grid(&g, 3));
    assert_eq!(s.cell(3, 4), 0);
}
