//! Tab descriptors as the configuration collaborator delivers them, and the
//! order in which tabs appear: ascending priority, ties broken by name.
//!
//! Reading and parsing the configuration file is outside this crate; the
//! descriptors arrive here as plain values. This module fixes what the
//! descriptor holds, what equality and order mean for it, and sorts a batch
//! of descriptors into display order.

use vstd::prelude::*;

verus! {

/// Colors a tab may name for its frame and for the highlighted entry.
#[derive(Clone, Copy, Debug, PartialEq, Eq, Structural)]
pub enum ColorSetting {
    Reset,
    Black,
    Red,
    Green,
    Yellow,
    Blue,
    Magenta,
    Cyan,
    Gray,
    DarkGray,
    LightRed,
    LightGreen,
    LightYellow,
    LightBlue,
    LightMagenta,
    LightCyan,
    White,
    Rgb(u8, u8, u8),
}

/// The command template a media tab launches: a program name and its
/// arguments, in which the placeholder literal marks where the selected
/// path is substituted.
#[derive(Debug)]
pub struct CommandSetting {
    pub program: String,
    pub args: Vec<String>,
}

impl Clone for CommandSetting {
    /// The clone carries the same program name and the same arguments.
    fn clone(&self) -> (r: CommandSetting)
        ensures
            r.program == self.program,
            r.args@ == self.args@,
    {
        let args = self.args.clone();
        proof {
            broadcast use vstd::std_specs::vec::vec_clone_deep_view_proof;

            assert(args@ =~= self.args@);
        }
        CommandSetting { program: self.program.clone(), args }
    }
}

/// One configured tab: its display name, its kind, its place in the tab
/// order, and the optional media payload a `"media"`-kind tab carries.
#[derive(Debug)]
pub struct TabSettings {
    pub name: String,
    pub kind: String,
    pub priority: usize,
    pub media_dirs: Option<Vec<String>>,
    pub media_types: Option<Vec<String>>,
    pub subs_dirs: Option<Vec<String>>,
    pub subs_types: Option<Vec<String>>,
    pub command: Option<CommandSetting>,
    pub base_color: Option<ColorSetting>,
    pub highlight_color: Option<ColorSetting>,
}

impl PartialEq for TabSettings {
    /// Two descriptors compare equal when they claim the same place in the
    /// tab order.
    fn eq(&self, other: &TabSettings) -> (r: bool) {
        self.priority == other.priority
    }
}

impl vstd::std_specs::cmp::PartialEqSpecImpl for TabSettings {
    open spec fn obeys_eq_spec() -> bool {
        true
    }

    open spec fn eq_spec(&self, other: &TabSettings) -> bool {
        self.priority == other.priority
    }
}

/// `a` comes no later than `b` in character order: at the first position
/// where they differ, `a`'s character is the smaller one, or `a` is a prefix
/// of `b`.
pub open spec fn lex_le(a: Seq<char>, b: Seq<char>) -> bool
    decreases a.len(),
{
    if a.len() == 0 {
        true
    } else if b.len() == 0 {
        false
    } else if a[0] != b[0] {
        (a[0] as u32) < (b[0] as u32)
    } else {
        lex_le(a.drop_first(), b.drop_first())
    }
}

/// `a` comes no later than `b` in the tab order: ascending priority, ties
/// broken by name.
pub open spec fn tab_le(a: TabSettings, b: TabSettings) -> bool {
    a.priority < b.priority || (a.priority == b.priority && lex_le(a.name@, b.name@))
}

/// Dropping one equal leading character from both sides leaves the
/// character order as it was.
proof fn lemma_lex_le_skip_step(a: Seq<char>, b: Seq<char>, i: int)
    requires
        0 <= i < a.len(),
        i < b.len(),
        a[i] == b[i],
    ensures
        lex_le(a.skip(i), b.skip(i)) == lex_le(a.skip(i + 1), b.skip(i + 1)),
{
    assert(a.skip(i).drop_first() =~= a.skip(i + 1));
    assert(b.skip(i).drop_first() =~= b.skip(i + 1));
}

/// Character order is total: of any two strings, one comes no later than
/// the other.
pub proof fn lemma_lex_le_total(a: Seq<char>, b: Seq<char>)
    ensures
        lex_le(a, b) || lex_le(b, a),
    decreases a.len(),
{
    if a.len() > 0 && b.len() > 0 {
        if a[0] == b[0] {
            lemma_lex_le_total(a.drop_first(), b.drop_first());
        } else {
            vstd::utf8::char_u32_cast(a[0], a[0] as u32);
            vstd::utf8::char_u32_cast(b[0], b[0] as u32);
        }
    }
}

/// Character order is transitive.
pub proof fn lemma_lex_le_trans(a: Seq<char>, b: Seq<char>, c: Seq<char>)
    requires
        lex_le(a, b),
        lex_le(b, c),
    ensures
        lex_le(a, c),
    decreases a.len(),
{
    if a.len() > 0 && b.len() > 0 && c.len() > 0 && a[0] == b[0] && b[0] == c[0] {
        lemma_lex_le_trans(a.drop_first(), b.drop_first(), c.drop_first());
    }
}

/// Tab order is total.
pub proof fn lemma_tab_le_total(a: TabSettings, b: TabSettings)
    ensures
        tab_le(a, b) || tab_le(b, a),
{
    lemma_lex_le_total(a.name@, b.name@);
}

/// Tab order is transitive.
pub proof fn lemma_tab_le_trans(a: TabSettings, b: TabSettings, c: TabSettings)
    requires
        tab_le(a, b),
        tab_le(b, c),
    ensures
        tab_le(a, c),
{
    if a.priority == b.priority && b.priority == c.priority {
        lemma_lex_le_trans(a.name@, b.name@, c.name@);
    }
}

/// Decides the character order of two strings.
pub fn str_le(a: &str, b: &str) -> (r: bool)
    ensures
        r == lex_le(a@, b@),
{
    let alen = a.unicode_len();
    let blen = b.unicode_len();
    proof {
        assert(a@.skip(0) =~= a@);
        assert(b@.skip(0) =~= b@);
    }
    let mut i: usize = 0;
    loop
        invariant
            i <= alen,
            i <= blen,
            alen == a@.len(),
            blen == b@.len(),
            lex_le(a@, b@) == lex_le(a@.skip(i as int), b@.skip(i as int)),
        decreases alen - i,
    {
        if i < alen && i < blen {
            let ca = a.get_char(i);
            let cb = b.get_char(i);
            if ca != cb {
                proof {
                    assert(a@.skip(i as int)[0] == a@[i as int]);
                    assert(b@.skip(i as int)[0] == b@[i as int]);
                }
                return (ca as u32) < (cb as u32);
            }
            proof {
                lemma_lex_le_skip_step(a@, b@, i as int);
            }
            i = i + 1;
        } else {
            proof {
                if i == alen {
                    assert(a@.skip(i as int).len() == 0);
                } else {
                    assert(b@.skip(i as int).len() == 0);
                    assert(a@.skip(i as int).len() > 0);
                }
            }
            return alen <= blen;
        }
    }
}

/// The tab order holds between every element of `s` and every element of
/// `t`.
pub open spec fn all_le(s: Seq<TabSettings>, t: Seq<TabSettings>) -> bool {
    forall|i: int, l: int|
        0 <= i < s.len() && 0 <= l < t.len() ==> tab_le(#[trigger] s[i], #[trigger] t[l])
}

/// The position of a descriptor that comes no later than every descriptor
/// in `v`.
fn min_index(v: &Vec<TabSettings>) -> (m: usize)
    requires
        v@.len() > 0,
    ensures
        m < v@.len(),
        forall|k: int| 0 <= k < v@.len() ==> tab_le(v@[m as int], #[trigger] v@[k]),
{
    let mut m: usize = 0;
    let mut j: usize = 1;
    proof {
        lemma_tab_le_total(v@[0], v@[0]);
    }
    while j < v.len()
        invariant
            m < j <= v@.len(),
            forall|k: int| 0 <= k < j ==> tab_le(v@[m as int], #[trigger] v@[k]),
        decreases v@.len() - j,
    {
        if v[j].le(&v[m]) {
            proof {
                lemma_tab_le_total(v@[j as int], v@[j as int]);
                assert forall|k: int| 0 <= k < j implies tab_le(v@[j as int], #[trigger] v@[k]) by {
                    lemma_tab_le_trans(v@[j as int], v@[m as int], v@[k]);
                }
            }
            m = j;
        } else {
            proof {
                lemma_tab_le_total(v@[m as int], v@[j as int]);
            }
        }
        j = j + 1;
    }
    m
}

/// Sorts descriptors into display order — ascending priority, ties broken by
/// name — returning the same descriptors, each as often as it came in.
pub fn sort_settings(input: Vec<TabSettings>) -> (r: Vec<TabSettings>)
    ensures
        r@.to_multiset() == input@.to_multiset(),
        r@.len() == input@.len(),
        forall|i: int, j: int| 0 <= i < j < r@.len() ==> tab_le(#[trigger] r@[i], #[trigger] r@[j]),
{
    broadcast use vstd::seq_lib::group_to_multiset_ensures;
    broadcast use vstd::multiset::group_multiset_axioms;

    let mut rest = input;
    let mut out: Vec<TabSettings> = Vec::new();
    proof {
        assert(out@.to_multiset().add(rest@.to_multiset()) =~= input@.to_multiset());
    }
    while rest.len() > 0
        invariant
            out@.to_multiset().add(rest@.to_multiset()) == input@.to_multiset(),
            out@.len() + rest@.len() == input@.len(),
            forall|i: int, j: int|
                0 <= i < j < out@.len() ==> tab_le(#[trigger] out@[i], #[trigger] out@[j]),
            all_le(out@, rest@),
        decreases rest@.len(),
    {
        let ghost out0 = out@;
        let ghost rest0 = rest@;
        let m = min_index(&rest);
        let x = rest.remove(m);
        out.push(x);
        proof {
            vstd::seq_lib::to_multiset_remove::<TabSettings>(rest0, m as int);
            vstd::seq_lib::to_multiset_build::<TabSettings>(out0, x);
            assert(rest@.to_multiset() == rest0.to_multiset().remove(x));
            assert(out@.to_multiset() == out0.to_multiset().insert(x));
            assert(rest0.to_multiset().count(x) > 0) by {
                assert(rest0[m as int] == x);
                assert(rest0.contains(x));
                vstd::seq_lib::to_multiset_contains::<TabSettings>(rest0, x);
            }
            assert(out@.to_multiset().add(rest@.to_multiset()) =~= input@.to_multiset());
            assert forall|i: int, j: int|
                0 <= i < j < out@.len() implies tab_le(#[trigger] out@[i], #[trigger] out@[j]) by {
                if j == out@.len() - 1 {
                    assert(tab_le(out0[i], rest0[m as int]));
                }
            }
            assert forall|i: int, l: int|
                0 <= i < out@.len() && 0 <= l < rest@.len() implies tab_le(
                #[trigger] out@[i],
                #[trigger] rest@[l],
            ) by {
                let lo = if l < m { l } else { l + 1 };
                assert(rest@[l] == rest0[lo]);
                if i < out@.len() - 1 {
                    assert(tab_le(out0[i], rest0[lo]));
                }
            }
        }
    }
    out
}

impl TabSettings {
    /// Decides whether this descriptor comes no later than `other` in the
    /// tab order.
    pub fn le(&self, other: &TabSettings) -> (r: bool)
        ensures
            r == tab_le(*self, *other),
    {
        if self.priority < other.priority {
            true
        } else if self.priority == other.priority {
            str_le(self.name.as_str(), other.name.as_str())
        } else {
            false
        }
    }
}

} // verus!
