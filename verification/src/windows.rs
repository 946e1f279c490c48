//! Windows: what KWin reports of one, what a listing shows of it, and the
//! order of a listing.

use vstd::prelude::*;

use crate::window_id::uuid_to_u64;

verus! {

/// The backend that a window listed through KWin's scripting interface names.
pub const KWIN_SCRIPTING_BACKEND: &'static str = "kwin-scripting";

/// One window, as the KWin script reports it.
#[derive(Debug)]
pub struct RawWindow {
    pub id: String,
    pub caption: String,
    pub pid: u32,
    pub resource_class: String,
    pub minimized: bool,
    pub active: bool,
    pub desktop_window: bool,
    pub skip_taskbar: bool,
    pub x: i32,
    pub y: i32,
    pub width: u32,
    pub height: u32,
}

/// Where a window stands on the screen.
#[derive(Debug, Clone, Copy, PartialEq, Eq, Structural)]
pub struct WindowBounds {
    pub x: Option<i32>,
    pub y: Option<i32>,
    pub width: u32,
    pub height: u32,
}

/// One window of a listing.
#[derive(Debug)]
pub struct WindowInfo {
    pub window_id: u64,
    pub title: Option<String>,
    pub app_id: Option<String>,
    pub wm_class: Option<String>,
    pub pid: Option<u32>,
    pub bounds: Option<WindowBounds>,
    pub workspace: Option<i32>,
    pub focused: bool,
    pub hidden: bool,
    pub client_type: Option<String>,
    pub backend: String,
    pub terminal: Option<String>,
}

/// The content of a [`WindowInfo`], with texts as sequences of characters.
pub struct WindowModel {
    pub window_id: u64,
    pub title: Option<Seq<char>>,
    pub app_id: Option<Seq<char>>,
    pub wm_class: Option<Seq<char>>,
    pub pid: Option<u32>,
    pub bounds: Option<WindowBounds>,
    pub workspace: Option<i32>,
    pub focused: bool,
    pub hidden: bool,
    pub client_type: Option<Seq<char>>,
    pub backend: Seq<char>,
    pub terminal: Option<Seq<char>>,
}

impl View for WindowInfo {
    type V = WindowModel;

    open spec fn view(&self) -> WindowModel {
        WindowModel {
            window_id: self.window_id,
            title: crate::text::option_text(self.title),
            app_id: crate::text::option_text(self.app_id),
            wm_class: crate::text::option_text(self.wm_class),
            pid: self.pid,
            bounds: self.bounds,
            workspace: self.workspace,
            focused: self.focused,
            hidden: self.hidden,
            client_type: crate::text::option_text(self.client_type),
            backend: self.backend@,
            terminal: crate::text::option_text(self.terminal),
        }
    }
}

/// What a listing shows of the window that KWin reports as `w`. A window
/// without a process or without an extent has none to show, and neither has one
/// with an empty caption or class a title or an application.
pub open spec fn model_of(w: RawWindow) -> WindowModel {
    WindowModel {
        window_id: crate::window_id::window_number(w.id@),
        title: crate::text::unless_empty(w.caption@),
        app_id: crate::text::unless_empty(w.resource_class@),
        wm_class: None,
        pid: if w.pid > 0 {
            Some(w.pid)
        } else {
            None
        },
        bounds: if w.width > 0 || w.height > 0 {
            Some(
                WindowBounds { x: Some(w.x), y: Some(w.y), width: w.width, height: w.height },
            )
        } else {
            None
        },
        workspace: None,
        focused: w.active,
        hidden: w.minimized,
        client_type: None,
        backend: KWIN_SCRIPTING_BACKEND@,
        terminal: None,
    }
}

/// `s`, unless it is empty.
pub fn non_empty(s: String) -> (r: Option<String>)
    ensures
        r == (if s@.len() == 0 {
            None::<String>
        } else {
            Some(s)
        }),
{
    if s.as_str().is_empty() {
        None
    } else {
        Some(s)
    }
}

/// What a listing shows of `w`.
pub fn window_info_from_raw(w: RawWindow) -> (info: WindowInfo)
    ensures
        info@ == model_of(w),
        info.window_id == crate::window_id::window_number(w.id@),
        info.focused == w.active,
        info.hidden == w.minimized,
        info.title is None <==> w.caption@.len() == 0,
        info.title matches Some(title) ==> title@ == w.caption@,
        info.app_id is None <==> w.resource_class@.len() == 0,
        info.app_id matches Some(app) ==> app@ == w.resource_class@,
        info.pid is None <==> w.pid == 0,
        info.pid matches Some(pid) ==> pid == w.pid,
        info.bounds is None <==> w.width == 0 && w.height == 0,
        info.bounds matches Some(b) ==> b.x == Some(w.x) && b.y == Some(w.y) && b.width == w.width
            && b.height == w.height,
        info.backend@ == "kwin-scripting"@,
        info.wm_class is None && info.workspace is None && info.client_type is None
            && info.terminal is None,
{
    let bounds = if w.width > 0 || w.height > 0 {
        Some(WindowBounds { x: Some(w.x), y: Some(w.y), width: w.width, height: w.height })
    } else {
        None
    };
    WindowInfo {
        window_id: uuid_to_u64(w.id.as_str()),
        title: non_empty(w.caption),
        app_id: non_empty(w.resource_class),
        wm_class: None,
        pid: if w.pid > 0 {
            Some(w.pid)
        } else {
            None
        },
        bounds,
        workspace: None,
        focused: w.active,
        hidden: w.minimized,
        client_type: None,
        backend: KWIN_SCRIPTING_BACKEND.to_string(),
        terminal: None,
    }
}

/// A listing tells of a window what the report tells of it: the window in use has
/// the focus, a minimized one is hidden, and the title, the application, the
/// process and the place are those of the report, where it has any.
pub proof fn law_info_tells_what_was_reported(w: RawWindow, info: WindowInfo)
    requires
        info@ == model_of(w),
    ensures
        info.window_id == crate::window_id::window_number(w.id@),
        info.focused == w.active,
        info.hidden == w.minimized,
        info.title is None <==> w.caption@.len() == 0,
        info.title matches Some(title) ==> title@ == w.caption@,
        info.app_id is None <==> w.resource_class@.len() == 0,
        info.app_id matches Some(app) ==> app@ == w.resource_class@,
        info.pid is None <==> w.pid == 0,
        info.pid matches Some(pid) ==> pid == w.pid,
        info.bounds is None <==> w.width == 0 && w.height == 0,
        info.bounds matches Some(b) ==> b.x == Some(w.x) && b.y == Some(w.y) && b.width == w.width
            && b.height == w.height,
        info.backend@ == "kwin-scripting"@,
        info.wm_class is None && info.workspace is None && info.client_type is None
            && info.terminal is None,
{
}

/// Whether a listing shows `w` at all: the desktop itself and what keeps out of
/// the task bar are left out.
pub open spec fn is_listed(w: RawWindow) -> bool {
    !w.desktop_window && !w.skip_taskbar
}

/// The contents of a list of windows.
pub open spec fn models(windows: Seq<WindowInfo>) -> Seq<WindowModel> {
    windows.map_values(|w: WindowInfo| w@)
}

/// What a listing shows of the windows `raw`, in the order of the report.
pub open spec fn listed_models(raw: Seq<RawWindow>) -> Seq<WindowModel> {
    raw.filter(|w: RawWindow| is_listed(w)).map_values(|w: RawWindow| model_of(w))
}

/// No window stands before one with a smaller number.
pub open spec fn ordered(s: Seq<WindowModel>) -> bool {
    forall|i: int, j: int| 0 <= i <= j < s.len() ==> s[i].window_id <= s[j].window_id
}

/// The windows of `s` with the number `id`, in order.
pub open spec fn with_number(s: Seq<WindowModel>, id: u64) -> Seq<WindowModel> {
    s.filter(|w: WindowModel| w.window_id == id)
}

/// `out` holds the windows of `input` in the order of their numbers, and those
/// with the same number in the order in which `input` has them.
pub open spec fn is_stable_sort(out: Seq<WindowModel>, input: Seq<WindowModel>) -> bool {
    &&& ordered(out)
    &&& forall|id: u64| #[trigger] with_number(out, id) == with_number(input, id)
}

proof fn lemma_insert_in_order(out: Seq<WindowModel>, p: int, w: WindowModel)
    requires
        0 <= p <= out.len(),
        ordered(out),
        forall|i: int| 0 <= i < p ==> (#[trigger] out[i]).window_id < w.window_id,
        p < out.len() ==> out[p].window_id >= w.window_id,
    ensures
        ordered(out.insert(p, w)),
        forall|id: u64| #[trigger]
            with_number(out.insert(p, w), id) == with_number(seq![w] + out, id),
{
    let inserted = out.insert(p, w);
    let a = out.take(p);
    let b = out.skip(p);
    assert(inserted =~= a + (seq![w] + b));
    assert(out =~= a + b);
    assert forall|id: u64| #[trigger] with_number(inserted, id) == with_number(seq![w] + out, id) by {
        let pred = |m: WindowModel| m.window_id == id;
        Seq::filter_distributes_over_add(a, seq![w] + b, pred);
        Seq::filter_distributes_over_add(seq![w], b, pred);
        Seq::filter_distributes_over_add(seq![w], out, pred);
        Seq::filter_distributes_over_add(a, b, pred);
        if w.window_id == id {
            assert forall|i: int| 0 <= i < a.len() implies !pred(#[trigger] a[i]) by {
                assert(a[i] == out[i]);
            }
            a.lemma_all_neg_filter_empty(pred);
            assert(a.filter(pred) =~= Seq::empty());
        } else {
            assert(!pred(seq![w][0]));
            seq![w].lemma_all_neg_filter_empty(pred);
            assert(seq![w].filter(pred) =~= Seq::empty());
        }
        assert(with_number(inserted, id) =~= with_number(seq![w] + out, id));
    }
}

/// Puts `windows` in the order of their numbers; windows with the same number
/// keep their order.
pub fn sort_by_window_id(windows: &mut Vec<WindowInfo>)
    ensures
        is_stable_sort(models(final(windows)@), models(old(windows)@)),
{
    let ghost input = models(windows@);
    let mut out: Vec<WindowInfo> = Vec::new();
    proof {
        assert(input.skip(windows@.len() as int) =~= models(out@));
    }
    while windows.len() > 0
        invariant
            windows@.len() <= input.len(),
            models(windows@) == input.take(windows@.len() as int),
            is_stable_sort(models(out@), input.skip(windows@.len() as int)),
        decreases windows@.len(),
    {
        let ghost before = windows@;
        let ghost n = before.len() as int;
        let ghost rest = models(out@);
        match windows.pop() {
            Some(w) => {
                let mut p: usize = 0;
                while p < out.len() && out[p].window_id < w.window_id
                    invariant
                        p <= out@.len(),
                        forall|i: int| 0 <= i < p ==> (#[trigger] out@[i]).window_id < w.window_id,
                    decreases out@.len() - p,
                {
                    p = p + 1;
                }
                proof {
                    let m = w@;
                    assert(m == models(before)[n - 1]);
                    assert forall|i: int| 0 <= i < p implies (#[trigger] rest[i]).window_id < m.window_id by {
                        assert(rest[i] == out@[i]@);
                    }
                    lemma_insert_in_order(rest, p as int, m);
                    assert(input.skip(n - 1) =~= seq![m] + input.skip(n));
                    assert forall|id: u64| #[trigger] with_number(rest.insert(p as int, m), id)
                        == with_number(input.skip(n - 1), id) by {
                        let pred = |x: WindowModel| x.window_id == id;
                        Seq::filter_distributes_over_add(seq![m], rest, pred);
                        Seq::filter_distributes_over_add(seq![m], input.skip(n), pred);
                        assert(with_number(rest, id) == with_number(input.skip(n), id));
                    }
                }
                out.insert(p, w);
                proof {
                    assert(models(out@) =~= rest.insert(p as int, w@));
                    assert(models(windows@) =~= models(before).take(n - 1));
                    assert(input.take(n).take(n - 1) =~= input.take(n - 1));
                }
            },
            None => {},
        }
    }
    proof {
        assert(input.skip(0) =~= input);
    }
    *windows = out;
}

proof fn lemma_listed_models_push(raw: Seq<RawWindow>, i: int)
    requires
        0 <= i < raw.len(),
    ensures
        listed_models(raw.take(i + 1)) == (if is_listed(raw[i]) {
            listed_models(raw.take(i)).push(model_of(raw[i]))
        } else {
            listed_models(raw.take(i))
        }),
{
    reveal(Seq::filter);
    assert(raw.take(i + 1).drop_last() =~= raw.take(i));
    assert(raw.take(i + 1).last() == raw[i]);
    if is_listed(raw[i]) {
        assert(listed_models(raw.take(i + 1)) =~= listed_models(raw.take(i)).push(
            model_of(raw[i]),
        ));
    }
}

/// The listing of the windows that KWin reports: those that are shown at all,
/// in the order of their numbers.
pub fn collect_windows(raw: Vec<RawWindow>) -> (windows: Vec<WindowInfo>)
    ensures
        is_stable_sort(models(windows@), listed_models(raw@)),
        windows@.len() == raw@.filter(
            |w: RawWindow| !w.desktop_window && !w.skip_taskbar,
        ).len(),
        forall|k: int, l: int|
            0 <= k <= l < windows@.len() ==> windows@[k].window_id <= windows@[l].window_id,
{
    let mut windows: Vec<WindowInfo> = Vec::new();
    proof {
        reveal(Seq::filter);
        assert(raw@.take(0) =~= Seq::empty());
        assert(models(windows@) =~= listed_models(raw@.take(0)));
    }
    let ghost report = raw@;
    for w in it: raw.into_iter()
        invariant
            it.seq() == report,
            models(windows@) == listed_models(report.take(it.index())),
    {
        let ghost i = it.index();
        let ghost before = windows@;
        proof {
            lemma_listed_models_push(report, i);
        }
        if !w.desktop_window && !w.skip_taskbar {
            windows.push(window_info_from_raw(w));
            proof {
                assert(models(windows@) =~= models(before).push(model_of(report[i])));
            }
        }
    }
    proof {
        assert(report.take(report.len() as int) =~= report);
    }
    sort_by_window_id(&mut windows);
    proof {
        let origin = law_listing_shows_every_window(report, windows@);
    }
    windows
}

proof fn lemma_with_number_members(s: Seq<WindowModel>, id: u64)
    ensures
        forall|i: int|
            0 <= i < with_number(s, id).len() ==> (#[trigger] with_number(s, id)[i]).window_id == id,
        forall|i: int|
            0 <= i < s.len() && (#[trigger] s[i]).window_id == id ==> with_number(s, id).len() > 0,
        with_number(s, id).len() > 0 ==> exists|i: int|
            0 <= i < s.len() && (#[trigger] s[i]).window_id == id,
{
    let pred = |m: WindowModel| m.window_id == id;
    assert forall|i: int| 0 <= i < with_number(s, id).len() implies (#[trigger] with_number(
        s,
        id,
    )[i]).window_id == id by {
        s.lemma_filter_pred(pred, i);
    }
    assert forall|i: int| 0 <= i < s.len() && (#[trigger] s[i]).window_id == id implies with_number(
        s,
        id,
    ).len() > 0 by {
        s.lemma_filter_contains(pred, i);
    }
    if with_number(s, id).len() > 0 {
        let m = with_number(s, id)[0];
        s.lemma_filter_contains_rev(pred, m);
        let k = choose|k: int| 0 <= k < s.len() && s[k] == m;
        assert(s[k].window_id == id);
    }
}

proof fn lemma_with_number_first(s: Seq<WindowModel>, id: u64)
    requires
        s.len() > 0,
    ensures
        with_number(s, id) == (if s.first().window_id == id {
            seq![s.first()] + with_number(s.drop_first(), id)
        } else {
            with_number(s.drop_first(), id)
        }),
{
    let pred = |m: WindowModel| m.window_id == id;
    let head = seq![s.first()];
    assert(s =~= head + s.drop_first());
    Seq::filter_distributes_over_add(head, s.drop_first(), pred);
    if s.first().window_id == id {
        reveal(Seq::filter);
        assert(head.drop_last() =~= Seq::empty());
        assert(head.last() == s.first());
        assert(head.filter(pred) =~= head);
    } else {
        assert(!pred(head[0]));
        head.lemma_all_neg_filter_empty(pred);
        assert(head.filter(pred) + s.drop_first().filter(pred) =~= s.drop_first().filter(pred));
    }
}

/// A listing has one order only: two stable sorts of the same windows are
/// equal.
pub proof fn law_stable_sort_is_unique(
    a: Seq<WindowModel>,
    b: Seq<WindowModel>,
    input: Seq<WindowModel>,
)
    requires
        is_stable_sort(a, input),
        is_stable_sort(b, input),
    ensures
        a == b,
{
    assert forall|id: u64| #[trigger] with_number(a, id) == with_number(b, id) by {
        assert(with_number(a, id) == with_number(input, id));
        assert(with_number(b, id) == with_number(input, id));
    }
    lemma_same_groups_equal(a, b);
}

proof fn lemma_same_groups_equal(a: Seq<WindowModel>, b: Seq<WindowModel>)
    requires
        ordered(a),
        ordered(b),
        forall|id: u64| #[trigger] with_number(a, id) == with_number(b, id),
    ensures
        a == b,
    decreases a.len(),
{
    if a.len() == 0 {
        if b.len() > 0 {
            let id = b[0].window_id;
            lemma_with_number_members(b, id);
            lemma_with_number_members(a, id);
            assert(with_number(a, id) == with_number(b, id));
        }
        assert(a =~= b);
    } else {
        let ka = a[0].window_id;
        lemma_with_number_members(a, ka);
        lemma_with_number_members(b, ka);
        assert(with_number(a, ka) == with_number(b, ka));
        let kb = b[0].window_id;
        lemma_with_number_members(a, kb);
        lemma_with_number_members(b, kb);
        assert(with_number(a, kb) == with_number(b, kb));
        assert(ka == kb);
        lemma_with_number_first(a, ka);
        lemma_with_number_first(b, ka);
        assert(with_number(a, ka)[0] == a[0]);
        assert(with_number(b, ka)[0] == b[0]);
        let ta = a.drop_first();
        let tb = b.drop_first();
        assert forall|id: u64| #[trigger] with_number(ta, id) == with_number(tb, id) by {
            lemma_with_number_first(a, id);
            lemma_with_number_first(b, id);
            assert(with_number(a, id) == with_number(b, id));
            if a.first().window_id == id {
                assert(with_number(ta, id) =~= with_number(a, id).drop_first());
                assert(with_number(tb, id) =~= with_number(b, id).drop_first());
            }
        }
        assert forall|i: int, j: int| 0 <= i <= j < ta.len() implies ta[i].window_id
            <= ta[j].window_id by {
            assert(ta[i] == a[i + 1] && ta[j] == a[j + 1]);
        }
        assert forall|i: int, j: int| 0 <= i <= j < tb.len() implies tb[i].window_id
            <= tb[j].window_id by {
            assert(tb[i] == b[i + 1] && tb[j] == b[j + 1]);
        }
        lemma_same_groups_equal(ta, tb);
        assert(a =~= seq![a[0]] + ta);
        assert(b =~= seq![b[0]] + tb);
    }
}

proof fn lemma_count_in_group(s: Seq<WindowModel>, m: WindowModel)
    ensures
        s.to_multiset().count(m) == with_number(s, m.window_id).to_multiset().count(m),
    decreases s.len(),
{
    broadcast use vstd::seq_lib::group_to_multiset_ensures;

    if s.len() == 0 {
        reveal(Seq::filter);
        assert(with_number(s, m.window_id) =~= s);
    } else {
        let id = m.window_id;
        let t = s.drop_first();
        lemma_count_in_group(t, m);
        lemma_with_number_first(s, id);
        assert(s =~= seq![s.first()] + t);
        vstd::seq_lib::lemma_multiset_commutative(seq![s.first()], t);
        vstd::seq_lib::lemma_multiset_commutative(seq![s.first()], with_number(t, id));
        assert(seq![s.first()] =~= Seq::empty().push(s.first()));
    }
}

/// A listing shows each window as often as the report holds it, no more and no
/// less.
pub proof fn law_stable_sort_keeps_every_window(out: Seq<WindowModel>, input: Seq<WindowModel>)
    requires
        is_stable_sort(out, input),
    ensures
        out.to_multiset() == input.to_multiset(),
{
    assert forall|m: WindowModel| #[trigger]
        out.to_multiset().count(m) == input.to_multiset().count(m) by {
        lemma_count_in_group(out, m);
        lemma_count_in_group(input, m);
        assert(with_number(out, m.window_id) == with_number(input, m.window_id));
    }
    assert(out.to_multiset() =~= input.to_multiset());
}

proof fn lemma_place_in_order(s: Seq<WindowModel>, id: u64, from: int) -> (p: int)
    requires
        0 <= from <= s.len(),
        forall|i: int| 0 <= i < from ==> (#[trigger] s[i]).window_id < id,
    ensures
        from <= p <= s.len(),
        forall|i: int| 0 <= i < p ==> (#[trigger] s[i]).window_id < id,
        p < s.len() ==> s[p].window_id >= id,
    decreases s.len() - from,
{
    if from < s.len() && s[from].window_id < id {
        lemma_place_in_order(s, id, from + 1)
    } else {
        from
    }
}

/// A stable sort of `input`, and for each of its windows the place in `input`.
proof fn lemma_stable_sort_exists(input: Seq<WindowModel>) -> (sorted: (
    Seq<WindowModel>,
    Seq<int>,
))
    ensures
        is_stable_sort(sorted.0, input),
        sorted.0.len() == input.len(),
        sorted.1.len() == input.len(),
        forall|k: int|
            0 <= k < input.len() ==> 0 <= #[trigger] sorted.1[k] < input.len() && sorted.0[k]
                == input[sorted.1[k]],
        forall|i: int| 0 <= i < input.len() ==> #[trigger] sorted.1.contains(i),
        forall|k: int, l: int|
            0 <= k < l < input.len() ==> sorted.0[k].window_id < sorted.0[l].window_id || (
            sorted.0[k].window_id == sorted.0[l].window_id && #[trigger] sorted.1[k]
                < #[trigger] sorted.1[l]),
    decreases input.len(),
{
    if input.len() == 0 {
        let none = Seq::<WindowModel>::empty();
        assert(input =~= none);
        (none, Seq::<int>::empty())
    } else {
        let w = input.first();
        let tail = input.drop_first();
        let (rest, places) = lemma_stable_sort_exists(tail);
        let p = lemma_place_in_order(rest, w.window_id, 0);
        lemma_insert_in_order(rest, p, w);
        let out = rest.insert(p, w);
        let from = Seq::new(
            input.len(),
            |k: int|
                if k < p {
                    places[k] + 1
                } else if k == p {
                    0
                } else {
                    places[k - 1] + 1
                },
        );
        assert(input =~= seq![w] + tail);
        assert forall|id: u64| #[trigger] with_number(out, id) == with_number(input, id) by {
            let pred = |m: WindowModel| m.window_id == id;
            assert(with_number(out, id) == with_number(seq![w] + rest, id));
            Seq::filter_distributes_over_add(seq![w], rest, pred);
            Seq::filter_distributes_over_add(seq![w], tail, pred);
            assert(with_number(rest, id) == with_number(tail, id));
        }
        assert forall|i: int| 0 <= i < input.len() implies #[trigger] from.contains(i) by {
            if i == 0 {
                assert(from[p] == 0);
            } else {
                assert(places.contains(i - 1));
                let k = choose|k: int| 0 <= k < places.len() && places[k] == i - 1;
                if k < p {
                    assert(from[k] == i);
                } else {
                    assert(from[k + 1] == i);
                }
            }
        }
        assert forall|k: int| 0 <= k < input.len() implies 0 <= #[trigger] from[k] < input.len()
            && out[k] == input[from[k]] by {
            if k < p {
                assert(0 <= places[k] < tail.len());
            } else if k > p {
                assert(0 <= places[k - 1] < tail.len());
            }
        }
        assert forall|k: int, l: int| 0 <= k < l < input.len() implies out[k].window_id
            < out[l].window_id || (out[k].window_id == out[l].window_id && #[trigger] from[k]
            < #[trigger] from[l]) by {
            let a = if k < p {
                k
            } else {
                k - 1
            };
            let b = if l < p {
                l
            } else {
                l - 1
            };
            if k != p && l != p {
                assert(places[a] < tail.len() && places[b] < tail.len());
                assert(out[k] == rest[a] && out[l] == rest[b]);
            } else if k == p {
                assert(out[l] == rest[b]);
                assert(rest[p].window_id <= rest[b].window_id);
                assert(0 <= places[b]);
            } else {
                assert(out[k] == rest[k]);
            }
        }
        (out, from)
    }
}

/// The places in `raw` of the windows that are neither desktops nor kept out of
/// the task bar.
proof fn lemma_listed_places(raw: Seq<RawWindow>) -> (places: Seq<int>)
    ensures
        places.len() == listed_models(raw).len(),
        forall|k: int|
            0 <= k < places.len() ==> 0 <= #[trigger] places[k] < raw.len()
                && !raw[places[k]].desktop_window && !raw[places[k]].skip_taskbar
                && listed_models(raw)[k] == model_of(raw[places[k]]),
        forall|k: int, l: int|
            0 <= k < l < places.len() ==> #[trigger] places[k] < #[trigger] places[l],
        forall|i: int|
            0 <= i < raw.len() && !raw[i].desktop_window && !raw[i].skip_taskbar
                ==> #[trigger] places.contains(i),
        places.len() == raw.filter(|w: RawWindow| !w.desktop_window && !w.skip_taskbar).len(),
    decreases raw.len(),
{
    let shown = |w: RawWindow| !w.desktop_window && !w.skip_taskbar;
    reveal(Seq::filter);
    if raw.len() == 0 {
        assert(listed_models(raw) =~= Seq::empty());
        Seq::empty()
    } else {
        let front = raw.drop_last();
        let last = raw.len() - 1;
        let before = lemma_listed_places(front);
        lemma_listed_models_push(raw, last);
        assert(raw.take(last + 1) =~= raw);
        assert(raw.take(last) =~= front);
        let w = raw[last];
        if !w.desktop_window && !w.skip_taskbar {
            let places = before.push(last);
            assert forall|i: int|
                0 <= i < raw.len() && !raw[i].desktop_window
                    && !raw[i].skip_taskbar implies #[trigger] places.contains(i) by {
                if i == last {
                    assert(places[before.len() as int] == i);
                } else {
                    assert(front[i] == raw[i]);
                    assert(before.contains(i));
                    let k = choose|k: int| 0 <= k < before.len() && before[k] == i;
                    assert(places[k] == i);
                }
            }
            assert forall|k: int| 0 <= k < places.len() implies 0 <= #[trigger] places[k] < raw.len()
                && !raw[places[k]].desktop_window && !raw[places[k]].skip_taskbar
                && listed_models(raw)[k] == model_of(raw[places[k]]) by {
                if k < before.len() {
                    assert(places[k] == before[k]);
                    assert(front[before[k]] == raw[before[k]]);
                }
            }
            places
        } else {
            assert forall|i: int|
                0 <= i < raw.len() && !raw[i].desktop_window
                    && !raw[i].skip_taskbar implies #[trigger] before.contains(i) by {
                assert(front[i] == raw[i]);
            }
            assert forall|k: int| 0 <= k < before.len() implies 0 <= #[trigger] before[k] < raw.len()
                && !raw[before[k]].desktop_window && !raw[before[k]].skip_taskbar
                && listed_models(raw)[k] == model_of(raw[before[k]]) by {
                assert(front[before[k]] == raw[before[k]]);
            }
            before
        }
    }
}

/// A window of the report is in the listing if and only if it is neither a desktop
/// nor kept out of the task bar, whatever else is said of it, and then it is there
/// once: `origin` tells for each window of the listing where it stands in the
/// report. The listing goes by the numbers of the windows, and where those are the
/// same, by the order of the report.
pub proof fn law_listing_shows_every_window(raw: Seq<RawWindow>, listing: Seq<WindowInfo>) -> (
    origin: Seq<int>)
    requires
        is_stable_sort(models(listing), listed_models(raw)),
    ensures
        origin.len() == listing.len(),
        forall|k: int|
            0 <= k < listing.len() ==> 0 <= #[trigger] origin[k] < raw.len()
                && !raw[origin[k]].desktop_window && !raw[origin[k]].skip_taskbar && listing[k]@
                == model_of(raw[origin[k]]),
        forall|k: int|
            0 <= k < listing.len() ==> listing[k].focused == raw[#[trigger] origin[k]].active
                && listing[k].hidden == raw[origin[k]].minimized,
        forall|i: int|
            0 <= i < raw.len() && !raw[i].desktop_window && !raw[i].skip_taskbar
                ==> #[trigger] origin.contains(i),
        forall|k: int, l: int|
            0 <= k < l < listing.len() ==> #[trigger] origin[k] != #[trigger] origin[l] && (
            listing[k].window_id < listing[l].window_id || (listing[k].window_id
                == listing[l].window_id && origin[k] < origin[l])),
        listing.len() == raw.filter(|w: RawWindow| !w.desktop_window && !w.skip_taskbar).len(),
        forall|k: int, l: int|
            0 <= k <= l < listing.len() ==> listing[k].window_id <= listing[l].window_id,
{
    let input = listed_models(raw);
    let out = models(listing);
    let places = lemma_listed_places(raw);
    let (sorted, from) = lemma_stable_sort_exists(input);
    law_stable_sort_is_unique(out, sorted, input);
    let origin = Seq::new(listing.len(), |k: int| places[from[k]]);
    assert forall|k: int| 0 <= k < listing.len() implies 0 <= #[trigger] origin[k] < raw.len()
        && !raw[origin[k]].desktop_window && !raw[origin[k]].skip_taskbar && listing[k]@
        == model_of(raw[origin[k]]) by {
        assert(0 <= from[k] < input.len());
        assert(0 <= places[from[k]] < raw.len());
        assert(out[k] == listing[k]@);
    }
    assert forall|i: int|
        0 <= i < raw.len() && !raw[i].desktop_window
            && !raw[i].skip_taskbar implies #[trigger] origin.contains(i) by {
        assert(places.contains(i));
        let m = choose|m: int| 0 <= m < places.len() && places[m] == i;
        assert(from.contains(m));
        let k = choose|k: int| 0 <= k < from.len() && from[k] == m;
        assert(origin[k] == i);
    }
    assert forall|k: int, l: int| 0 <= k < l < listing.len() implies #[trigger] origin[k]
        != #[trigger] origin[l] && (listing[k].window_id < listing[l].window_id || (
    listing[k].window_id == listing[l].window_id && origin[k] < origin[l])) by {
        assert(out[k] == listing[k]@ && out[l] == listing[l]@);
        assert(0 <= from[k] < input.len() && 0 <= from[l] < input.len());
        if listing[k].window_id == listing[l].window_id {
            assert(from[k] < from[l]);
            assert(places[from[k]] < places[from[l]]);
        }
    }
    assert forall|k: int, l: int| 0 <= k <= l < listing.len() implies listing[k].window_id
        <= listing[l].window_id by {
        assert(out[k] == listing[k]@ && out[l] == listing[l]@);
    }
    origin
}

} // verus!
