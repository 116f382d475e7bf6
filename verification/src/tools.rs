//! The catalogue of pre-built tools: lookup by name, category and tag, and
//! the sorted list of categories.
use vstd::prelude::*;
use crate::text::{chars_of, push_str, str_eq};

verus! {

// ---------------------------------------------------------------------------
// Text order
// ---------------------------------------------------------------------------

/// `a` sorts before `b`: lexicographic order of the characters' code
/// points, which is the order of `String` (UTF-8 keeps code point order).
pub open spec fn text_before(a: Seq<char>, b: Seq<char>) -> bool
    decreases a.len(),
{
    if a.len() == 0 {
        b.len() > 0
    } else if b.len() == 0 {
        false
    } else if a[0] != b[0] {
        a[0] < b[0]
    } else {
        text_before(a.drop_first(), b.drop_first())
    }
}

/// Lemma: no text sorts before itself, and of two different texts exactly
/// one sorts before the other.
pub proof fn lemma_text_order_total(a: Seq<char>, b: Seq<char>)
    ensures
        !text_before(a, a),
        a != b ==> (text_before(a, b) <==> !text_before(b, a)),
        a == b ==> !text_before(a, b),
    decreases a.len(),
{
    if a.len() > 0 {
        lemma_text_order_total(a.drop_first(), a.drop_first());
        if b.len() > 0 {
            lemma_text_order_total(a.drop_first(), b.drop_first());
            if a[0] == b[0] && a != b {
                assert(a.drop_first() != b.drop_first()) by {
                    if a.drop_first() == b.drop_first() {
                        assert forall|k: int| 0 <= k < a.len() implies a[k] == b[k] by {
                            if k > 0 {
                                assert(a[k] == a.drop_first()[k - 1]);
                                assert(b[k] == b.drop_first()[k - 1]);
                            }
                        }
                        assert(a =~= b);
                    }
                }
            }
        }
    } else if b.len() == 0 {
        assert(a =~= b);
    }
}

/// Lemma: the order is transitive.
pub proof fn lemma_text_order_transitive(a: Seq<char>, b: Seq<char>, c: Seq<char>)
    requires
        text_before(a, b),
        text_before(b, c),
    ensures
        text_before(a, c),
    decreases a.len(),
{
    if a.len() > 0 && b.len() > 0 && c.len() > 0 {
        if a[0] == b[0] && b[0] == c[0] {
            lemma_text_order_transitive(a.drop_first(), b.drop_first(), c.drop_first());
        }
    }
}

/// Whether `a` sorts before `b`.
pub fn is_text_before(a: &str, b: &str) -> (r: bool)
    ensures
        r == text_before(a@, b@),
{
    let x = chars_of(a);
    let y = chars_of(b);
    let mut i: usize = 0;
    assert(x@.subrange(0, x@.len() as int) =~= x@);
    assert(y@.subrange(0, y@.len() as int) =~= y@);
    while i < x.len() && i < y.len() && x[i] == y[i]
        invariant
            i <= x@.len(),
            i <= y@.len(),
            x@ == a@,
            y@ == b@,
            x@.subrange(0, i as int) == y@.subrange(0, i as int),
            text_before(a@, b@) == text_before(x@.subrange(i as int, x@.len() as int), y@.subrange(i as int, y@.len() as int)),
        decreases x.len() - i,
    {
        let ghost xs = x@.subrange(i as int, x@.len() as int);
        let ghost ys = y@.subrange(i as int, y@.len() as int);
        assert(xs.drop_first() =~= x@.subrange(i + 1, x@.len() as int));
        assert(ys.drop_first() =~= y@.subrange(i + 1, y@.len() as int));
        assert(x@.subrange(0, i + 1) =~= x@.subrange(0, i as int).push(x@[i as int]));
        assert(y@.subrange(0, i + 1) =~= y@.subrange(0, i as int).push(y@[i as int]));
        i = i + 1;
    }
    if i == x.len() {
        i < y.len()
    } else if i == y.len() {
        false
    } else {
        x[i] < y[i]
    }
}

// ---------------------------------------------------------------------------
// Catalogue
// ---------------------------------------------------------------------------

/// A pre-built tool.
#[derive(Debug, Clone)]
pub struct Tool {
    /// Unique name
    pub name: String,
    /// Category (e.g. `basic_math`)
    pub category: String,
    /// What the tool does
    pub description: String,
    /// Container image name, without registry
    pub image_name: String,
    /// Tags for discovery
    pub tags: Vec<String>,
}

/// The catalogue of tools.
#[derive(Debug, Clone)]
pub struct ToolsManifest {
    /// All tools
    pub tools: Vec<Tool>,
}

/// The categories of the tools, in catalogue order.
pub open spec fn categories_of(tools: Seq<Tool>) -> Seq<Seq<char>> {
    tools.map_values(|t: Tool| t.category@)
}

/// The tools of category `c`, in catalogue order.
pub open spec fn in_category(tools: Seq<Tool>, c: Seq<char>) -> Seq<Tool> {
    tools.filter(|t: Tool| t.category@ == c)
}

/// The tools carrying tag `g`, in catalogue order.
pub open spec fn with_tag(tools: Seq<Tool>, g: Seq<char>) -> Seq<Tool> {
    tools.filter(|t: Tool| t.tags.deep_view().contains(g))
}

/// Texts in strictly increasing order (so none occurs twice).
pub open spec fn strictly_sorted(s: Seq<Seq<char>>) -> bool {
    forall|i: int, j: int| #![trigger s[i], s[j]] 0 <= i < j < s.len() ==> text_before(s[i], s[j])
}

/// Whether `v` holds `x`.
fn texts_contain(v: &Vec<String>, x: &str) -> (r: bool)
    ensures
        r == v.deep_view().contains(x@),
{
    let mut i: usize = 0;
    while i < v.len()
        invariant
            i <= v@.len(),
            forall|j: int| 0 <= j < i ==> v.deep_view()[j] != x@,
        decreases v.len() - i,
    {
        if str_eq(v[i].as_str(), x) {
            assert(v.deep_view()[i as int] == x@);
            return true;
        }
        i = i + 1;
    }
    proof {
        if v.deep_view().contains(x@) {
            let k = choose|k: int| 0 <= k < v.deep_view().len() && v.deep_view()[k] == x@;
            assert(v.deep_view()[k] != x@);
        }
    }
    false
}

impl Tool {
    /// The image reference under `registry`: `registry/image_name`.
    pub fn get_image_ref(&self, registry: &str) -> (r: String)
        ensures
            r@ == registry@ + "/"@ + self.image_name@,
    {
        let mut out = registry.to_owned();
        push_str(&mut out, "/");
        push_str(&mut out, self.image_name.as_str());
        out
    }

    /// Whether the tool carries tag `tag`.
    pub fn has_tag(&self, tag: &str) -> (r: bool)
        ensures
            r == self.tags.deep_view().contains(tag@),
    {
        texts_contain(&self.tags, tag)
    }
}

impl ToolsManifest {
    /// All tools.
    pub fn get_tools(&self) -> (r: &[Tool])
        ensures
            r@ == self.tools@,
    {
        self.tools.as_slice()
    }

    /// The tools of category `category`, in catalogue order.
    pub fn get_tools_by_category(&self, category: &str) -> (r: Vec<&Tool>)
        ensures
            r@.len() == in_category(self.tools@, category@).len(),
            forall|i: int| 0 <= i < r@.len() ==> *r@[i] == in_category(self.tools@, category@)[i],
    {
        let ghost ts = self.tools@;
        let mut out: Vec<&Tool> = Vec::new();
        let mut i: usize = 0;
        while i < self.tools.len()
            invariant
                i <= ts.len(),
                ts == self.tools@,
                out@.len() == in_category(ts.subrange(0, i as int), category@).len(),
                forall|k: int|
                    0 <= k < out@.len() ==> *out@[k] == in_category(ts.subrange(0, i as int), category@)[k],
            decreases ts.len() - i,
        {
            assert(ts.subrange(0, i + 1).drop_last() =~= ts.subrange(0, i as int));
            proof {
                reveal(Seq::filter);
            }
            let t = &self.tools[i];
            if str_eq(t.category.as_str(), category) {
                out.push(t);
            }
            i = i + 1;
        }
        assert(ts.subrange(0, ts.len() as int) =~= ts);
        out
    }

    /// The categories of the tools, each once, in increasing order.
    pub fn get_categories(&self) -> (r: Vec<String>)
        ensures
            strictly_sorted(r.deep_view()),
            forall|c: Seq<char>| r.deep_view().contains(c) <==> categories_of(self.tools@).contains(c),
    {
        let ghost cats = categories_of(self.tools@);
        let mut out: Vec<String> = Vec::new();
        let mut i: usize = 0;
        while i < self.tools.len()
            invariant
                i <= self.tools@.len(),
                cats == categories_of(self.tools@),
                strictly_sorted(out.deep_view()),
                forall|c: Seq<char>|
                    out.deep_view().contains(c) <==> cats.subrange(0, i as int).contains(c),
            decreases self.tools.len() - i,
        {
            let c = self.tools[i].category.as_str();
            assert(c@ == cats[i as int]);
            let ghost before = out.deep_view();
            // first position whose text does not sort before c
            let mut j: usize = 0;
            while j < out.len() && is_text_before(out[j].as_str(), c)
                invariant
                    j <= out@.len(),
                    out.deep_view() == before,
                    forall|k: int| 0 <= k < j ==> text_before(before[k], c@),
                decreases out.len() - j,
            {
                j = j + 1;
            }
            let present = j < out.len() && str_eq(out[j].as_str(), c);
            if !present {
                proof {
                    if j < before.len() {
                        lemma_text_order_total(before[j as int], c@);
                    }
                }
                out.insert(j, c.to_owned());
                let ghost now = out.deep_view();
                assert(now =~= before.insert(j as int, c@));
                assert forall|x: int, y: int| #![trigger now[x], now[y]] 0 <= x < y < now.len() implies text_before(now[x], now[y]) by {
                    if x < j && y == j {
                    } else if x < j && y > j {
                        if j < before.len() {
                            lemma_text_order_transitive(before[x], c@, before[j as int]);
                            if y - 1 > j {
                                lemma_text_order_transitive(before[x], before[j as int], before[y - 1]);
                            }
                        }
                        assert(now[y] == before[y - 1]);
                    } else if x == j && y > j {
                        assert(now[y] == before[y - 1]);
                        if y - 1 > j {
                            lemma_text_order_transitive(c@, before[j as int], before[y - 1]);
                        }
                    } else if x > j {
                        assert(now[x] == before[x - 1]);
                        assert(now[y] == before[y - 1]);
                    }
                }
                let ghost prev = cats.subrange(0, i as int);
                let ghost next = cats.subrange(0, i + 1);
                assert(next =~= prev.push(c@));
                assert forall|cc: Seq<char>| now.contains(cc) implies next.contains(cc) by {
                    let k = choose|k: int| 0 <= k < now.len() && now[k] == cc;
                    if k == j {
                        assert(next[i as int] == cc);
                    } else {
                        if k < j {
                            assert(before[k] == cc);
                        } else {
                            assert(before[k - 1] == cc);
                        }
                        assert(before.contains(cc));
                        assert(prev.contains(cc));
                        let m = choose|m: int| 0 <= m < prev.len() && prev[m] == cc;
                        assert(next[m] == cc);
                    }
                }
                assert forall|cc: Seq<char>| next.contains(cc) implies now.contains(cc) by {
                    let m = choose|m: int| 0 <= m < next.len() && next[m] == cc;
                    if m == i {
                        assert(now[j as int] == cc);
                    } else {
                        assert(prev[m] == cc);
                        assert(prev.contains(cc));
                        assert(before.contains(cc));
                        let k = choose|k: int| 0 <= k < before.len() && before[k] == cc;
                        if k < j {
                            assert(now[k] == cc);
                        } else {
                            assert(now[k + 1] == cc);
                        }
                    }
                }
            } else {
                assert forall|cc: Seq<char>| before.contains(cc) <==> cats.subrange(0, i + 1).contains(cc) by {
                    assert(cats.subrange(0, i + 1) =~= cats.subrange(0, i as int).push(c@));
                    if cc == c@ {
                        assert(before[j as int] == cc);
                    }
                }
            }
            i = i + 1;
        }
        assert(cats.subrange(0, cats.len() as int) =~= cats);
        out
    }

    /// The first tool named `name`.
    pub fn find_tool(&self, name: &str) -> (r: Option<&Tool>)
        ensures
            match r {
                Some(t) => exists|i: int|
                    0 <= i < self.tools@.len() && *t == self.tools@[i] && self.tools@[i].name@ == name@
                        && forall|j: int| 0 <= j < i ==> self.tools@[j].name@ != name@,
                None => forall|i: int| 0 <= i < self.tools@.len() ==> self.tools@[i].name@ != name@,
            },
    {
        let mut i: usize = 0;
        while i < self.tools.len()
            invariant
                i <= self.tools@.len(),
                forall|j: int| 0 <= j < i ==> self.tools@[j].name@ != name@,
            decreases self.tools.len() - i,
        {
            if str_eq(self.tools[i].name.as_str(), name) {
                return Some(&self.tools[i]);
            }
            i = i + 1;
        }
        None
    }

    /// The tools carrying tag `tag`, in catalogue order.
    pub fn search_by_tag(&self, tag: &str) -> (r: Vec<&Tool>)
        ensures
            r@.len() == with_tag(self.tools@, tag@).len(),
            forall|i: int| 0 <= i < r@.len() ==> *r@[i] == with_tag(self.tools@, tag@)[i],
    {
        let ghost ts = self.tools@;
        let mut out: Vec<&Tool> = Vec::new();
        let mut i: usize = 0;
        while i < self.tools.len()
            invariant
                i <= ts.len(),
                ts == self.tools@,
                out@.len() == with_tag(ts.subrange(0, i as int), tag@).len(),
                forall|k: int|
                    0 <= k < out@.len() ==> *out@[k] == with_tag(ts.subrange(0, i as int), tag@)[k],
            decreases ts.len() - i,
        {
            assert(ts.subrange(0, i + 1).drop_last() =~= ts.subrange(0, i as int));
            proof {
                reveal(Seq::filter);
            }
            let t = &self.tools[i];
            if t.has_tag(tag) {
                out.push(t);
            }
            i = i + 1;
        }
        assert(ts.subrange(0, ts.len() as int) =~= ts);
        out
    }

    /// Number of tools.
    pub fn count(&self) -> (r: usize)
        ensures
            r == self.tools@.len(),
    {
        self.tools.len()
    }
}

} // verus!
