//! Token records and per-token approvals.
//!
//! A token record names its current owner, an optional URI, an optional
//! metadata extension, and the token's approvals: time-bounded permissions for
//! specific accounts to act on this one token. A token holds at most one
//! approval per spender; granting again overwrites the expiration.

use vstd::prelude::*;

verus! {

/// A time-bounded permission for `spender` to act on one token.
/// `expires == None` means the approval never expires.
#[derive(Debug, PartialEq)]
pub struct Approval {
    pub spender: String,
    pub expires: Option<u64>,
}

/// Spec-level shape of an approval.
pub ghost struct ApprovalView {
    pub spender: Seq<char>,
    pub expires: Option<u64>,
}

impl DeepView for Approval {
    type V = ApprovalView;

    open spec fn deep_view(&self) -> ApprovalView {
        ApprovalView { spender: self.spender@, expires: self.expires }
    }
}

impl Clone for Approval {
    fn clone(&self) -> (r: Self)
        ensures
            r.deep_view() == self.deep_view(),
    {
        Approval { spender: self.spender.clone(), expires: self.expires }
    }
}

/// Optional descriptive metadata carried by a token.
#[derive(Debug, PartialEq)]
pub struct NftExtension {
    pub image: Option<String>,
    pub image_data: Option<String>,
    pub external_url: Option<String>,
    pub description: Option<String>,
    pub name: Option<String>,
    pub background_color: Option<String>,
    pub animation_url: Option<String>,
    pub youtube_url: Option<String>,
}

/// Spec-level shape of a token's metadata extension.
pub ghost struct NftExtensionView {
    pub image: Option<Seq<char>>,
    pub image_data: Option<Seq<char>>,
    pub external_url: Option<Seq<char>>,
    pub description: Option<Seq<char>>,
    pub name: Option<Seq<char>>,
    pub background_color: Option<Seq<char>>,
    pub animation_url: Option<Seq<char>>,
    pub youtube_url: Option<Seq<char>>,
}

impl DeepView for NftExtension {
    type V = NftExtensionView;

    open spec fn deep_view(&self) -> NftExtensionView {
        NftExtensionView {
            image: self.image.deep_view(),
            image_data: self.image_data.deep_view(),
            external_url: self.external_url.deep_view(),
            description: self.description.deep_view(),
            name: self.name.deep_view(),
            background_color: self.background_color.deep_view(),
            animation_url: self.animation_url.deep_view(),
            youtube_url: self.youtube_url.deep_view(),
        }
    }
}

/// Copies an optional string.
pub fn clone_opt_string(o: &Option<String>) -> (r: Option<String>)
    ensures
        r.deep_view() == o.deep_view(),
{
    match o {
        Some(s) => Some(s.clone()),
        None => None,
    }
}

impl Clone for NftExtension {
    fn clone(&self) -> (r: Self)
        ensures
            r.deep_view() == self.deep_view(),
    {
        NftExtension {
            image: clone_opt_string(&self.image),
            image_data: clone_opt_string(&self.image_data),
            external_url: clone_opt_string(&self.external_url),
            description: clone_opt_string(&self.description),
            name: clone_opt_string(&self.name),
            background_color: clone_opt_string(&self.background_color),
            animation_url: clone_opt_string(&self.animation_url),
            youtube_url: clone_opt_string(&self.youtube_url),
        }
    }
}

impl Default for NftExtension {
    /// An extension with every field unset.
    fn default() -> (r: Self)
        ensures
            r.deep_view() == (NftExtensionView {
                image: None,
                image_data: None,
                external_url: None,
                description: None,
                name: None,
                background_color: None,
                animation_url: None,
                youtube_url: None,
            }),
    {
        NftExtension {
            image: None,
            image_data: None,
            external_url: None,
            description: None,
            name: None,
            background_color: None,
            animation_url: None,
            youtube_url: None,
        }
    }
}

/// Copies an optional extension.
pub fn clone_opt_extension(o: &Option<NftExtension>) -> (r: Option<NftExtension>)
    ensures
        r.deep_view() == o.deep_view(),
{
    match o {
        Some(e) => Some(e.clone()),
        None => None,
    }
}

/// One token: its owner, optional URI and metadata, and its approvals.
#[derive(Debug, PartialEq)]
pub struct TokenRecord {
    pub owner: String,
    pub token_uri: Option<String>,
    pub extension: Option<NftExtension>,
    pub approvals: Vec<Approval>,
}

/// Spec-level shape of a token record.
pub ghost struct TokenRecordView {
    pub owner: Seq<char>,
    pub token_uri: Option<Seq<char>>,
    pub extension: Option<NftExtensionView>,
    pub approvals: Seq<ApprovalView>,
}

impl DeepView for TokenRecord {
    type V = TokenRecordView;

    open spec fn deep_view(&self) -> TokenRecordView {
        TokenRecordView {
            owner: self.owner@,
            token_uri: self.token_uri.deep_view(),
            extension: self.extension.deep_view(),
            approvals: self.approvals.deep_view(),
        }
    }
}

/// At most one approval per spender.
pub open spec fn approvals_unique(s: Seq<ApprovalView>) -> bool {
    forall|i: int, j: int|
        #![trigger s[i], s[j]]
        0 <= i < j < s.len() ==> s[i].spender != s[j].spender
}

/// A token record is well formed when its approvals are one-per-spender.
pub open spec fn token_wf(t: TokenRecordView) -> bool {
    approvals_unique(t.approvals)
}

/// Whether a grant with this expiration is still in force at `now`.
pub open spec fn not_expired(expires: Option<u64>, now: u64) -> bool {
    match expires {
        Option::None => true,
        Option::Some(e) => e > now,
    }
}

/// The approval of `spender`, if any: first match in list order.
pub open spec fn find_approval(s: Seq<ApprovalView>, spender: Seq<char>) -> Option<ApprovalView>
    decreases s.len(),
{
    if s.len() == 0 {
        None
    } else if s[0].spender == spender {
        Some(s[0])
    } else {
        find_approval(s.drop_first(), spender)
    }
}

/// The list without any approval of `spender`, order kept.
pub open spec fn without_approval(s: Seq<ApprovalView>, spender: Seq<char>) -> Seq<ApprovalView>
    decreases s.len(),
{
    if s.len() == 0 {
        Seq::empty()
    } else if s[0].spender == spender {
        without_approval(s.drop_first(), spender)
    } else {
        seq![s[0]] + without_approval(s.drop_first(), spender)
    }
}

/// The approvals shown by a query: all of them, or the unexpired ones.
pub open spec fn visible_approvals(
    s: Seq<ApprovalView>,
    include_expired: bool,
    now: u64,
) -> Seq<ApprovalView>
    decreases s.len(),
{
    if s.len() == 0 {
        Seq::empty()
    } else {
        let rest = visible_approvals(s.drop_last(), include_expired, now);
        if include_expired || not_expired(s.last().expires, now) {
            rest.push(s.last())
        } else {
            rest
        }
    }
}

/// With `include_expired`, a query hides nothing.
pub proof fn lemma_visible_all(s: Seq<ApprovalView>, now: u64)
    ensures
        visible_approvals(s, true, now) == s,
    decreases s.len(),
{
    if s.len() == 0 {
        assert(visible_approvals(s, true, now) =~= s);
    } else {
        lemma_visible_all(s.drop_last(), now);
        assert(visible_approvals(s, true, now) =~= s.drop_last().push(s.last()));
        assert(s.drop_last().push(s.last()) =~= s);
    }
}

/// Every approval a query shows stands in the list, and is unexpired unless
/// expired ones were asked for.
pub proof fn lemma_visible_sub(s: Seq<ApprovalView>, include_expired: bool, now: u64, i: int)
    requires
        0 <= i < visible_approvals(s, include_expired, now).len(),
    ensures
        exists|j: int|
            0 <= j < s.len() && s[j] == visible_approvals(s, include_expired, now)[i],
        include_expired || not_expired(visible_approvals(s, include_expired, now)[i].expires, now),
    decreases s.len(),
{
    if s.len() > 0 {
        let v = visible_approvals(s, include_expired, now);
        let rest = visible_approvals(s.drop_last(), include_expired, now);
        if include_expired || not_expired(s.last().expires, now) {
            if i < v.len() - 1 {
                lemma_visible_sub(s.drop_last(), include_expired, now, i);
                let j = choose|j: int|
                    0 <= j < s.drop_last().len() && s.drop_last()[j] == rest[i];
                assert(s[j] == v[i]);
            } else {
                assert(s[s.len() - 1] == v[i]);
            }
        } else {
            lemma_visible_sub(s.drop_last(), include_expired, now, i);
            let j = choose|j: int| 0 <= j < s.drop_last().len() && s.drop_last()[j] == rest[i];
            assert(s[j] == v[i]);
        }
    }
}

/// `find_approval` finds the entry at `i` when no earlier entry matches.
pub proof fn lemma_find_at(s: Seq<ApprovalView>, i: int)
    requires
        0 <= i < s.len(),
        forall|j: int| 0 <= j < i ==> (#[trigger] s[j]).spender != s[i].spender,
    ensures
        find_approval(s, s[i].spender) == Some(s[i]),
    decreases i,
{
    if i > 0 {
        lemma_find_at(s.drop_first(), i - 1);
        assert(s.drop_first()[i - 1] == s[i]);
    }
}

/// A spender held by no entry is not found.
pub proof fn lemma_find_absent(s: Seq<ApprovalView>, spender: Seq<char>)
    requires
        forall|i: int| 0 <= i < s.len() ==> (#[trigger] s[i]).spender != spender,
    ensures
        find_approval(s, spender) is None,
    decreases s.len(),
{
    if s.len() > 0 {
        lemma_find_absent(s.drop_first(), spender);
    }
}

/// Removing a spender removes exactly that spender's entry.
pub proof fn lemma_without(s: Seq<ApprovalView>, spender: Seq<char>, sp2: Seq<char>)
    ensures
        find_approval(without_approval(s, spender), sp2) == if sp2 == spender {
            None::<ApprovalView>
        } else {
            find_approval(s, sp2)
        },
        approvals_unique(s) ==> approvals_unique(without_approval(s, spender)),
        without_approval(s, spender).len() <= s.len(),
        forall|i: int|
            0 <= i < without_approval(s, spender).len() ==> (exists|j: int|
                0 <= j < s.len() && s[j] == #[trigger] without_approval(s, spender)[i]),
    decreases s.len(),
{
    if s.len() > 0 {
        lemma_without(s.drop_first(), spender, sp2);
        let w = without_approval(s, spender);
        let wrest = without_approval(s.drop_first(), spender);
        if s[0].spender == spender {
            assert forall|i: int| 0 <= i < w.len() implies (exists|j: int|
                0 <= j < s.len() && s[j] == #[trigger] w[i]) by {
                let j0 = choose|j: int|
                    0 <= j < s.drop_first().len() && s.drop_first()[j] == wrest[i];
                assert(s[j0 + 1] == w[i]);
            }
        } else {
            assert(w == seq![s[0]] + wrest);
            assert(w[0] == s[0]);
            assert(w.drop_first() =~= wrest);
            if approvals_unique(s) {
                assert(approvals_unique(s.drop_first())) by {
                    assert forall|a: int, b: int|
                        #![trigger s.drop_first()[a], s.drop_first()[b]]
                        0 <= a < b < s.drop_first().len() implies s.drop_first()[a].spender
                        != s.drop_first()[b].spender by {
                        assert(s.drop_first()[a] == s[a + 1]);
                        assert(s.drop_first()[b] == s[b + 1]);
                    }
                }
                assert forall|a: int, b: int|
                    #![trigger w[a], w[b]]
                    0 <= a < b < w.len() implies w[a].spender != w[b].spender by {
                    assert(w[b] == wrest[b - 1]);
                    let jb = choose|j: int|
                        0 <= j < s.drop_first().len() && s.drop_first()[j] == wrest[b - 1];
                    assert(s[jb + 1] == wrest[b - 1]);
                    if a == 0 {
                        assert(w[a] == s[0]);
                    } else {
                        assert(w[a] == wrest[a - 1]);
                        assert(wrest[a - 1].spender != wrest[b - 1].spender);
                    }
                }
            }
            assert forall|i: int| 0 <= i < w.len() implies (exists|j: int|
                0 <= j < s.len() && s[j] == #[trigger] w[i]) by {
                if i == 0 {
                    assert(s[0] == w[0]);
                } else {
                    let j0 = choose|j: int|
                        0 <= j < s.drop_first().len() && s.drop_first()[j] == wrest[i - 1];
                    assert(s[j0 + 1] == w[i]);
                }
            }
        }
    }
}

/// A found approval stands in the list.
pub proof fn lemma_find_some_mem(s: Seq<ApprovalView>, spender: Seq<char>)
    requires
        find_approval(s, spender) is Some,
    ensures
        exists|j: int| 0 <= j < s.len() && #[trigger] s[j] == find_approval(s, spender)->0,
    decreases s.len(),
{
    if s.len() > 0 {
        if s[0].spender == spender {
            assert(s[0] == find_approval(s, spender)->0);
        } else {
            lemma_find_some_mem(s.drop_first(), spender);
            let j = choose|j: int|
                0 <= j < s.drop_first().len() && #[trigger] s.drop_first()[j] == find_approval(
                    s.drop_first(),
                    spender,
                )->0;
            assert(s[j + 1] == find_approval(s, spender)->0);
        }
    }
}

/// If a spender is not found, no entry has it.
pub proof fn lemma_find_none_no_mem(s: Seq<ApprovalView>, spender: Seq<char>)
    requires
        find_approval(s, spender) is None,
    ensures
        forall|i: int| 0 <= i < s.len() ==> (#[trigger] s[i]).spender != spender,
    decreases s.len(),
{
    if s.len() > 0 {
        lemma_find_none_no_mem(s.drop_first(), spender);
        assert forall|i: int| 0 <= i < s.len() implies (#[trigger] s[i]).spender != spender by {
            if i > 0 {
                assert(s.drop_first()[i - 1] == s[i]);
            }
        }
    }
}

/// What appending one approval does to a removal.
pub proof fn lemma_without_push(s: Seq<ApprovalView>, x: ApprovalView, spender: Seq<char>)
    ensures
        without_approval(s.push(x), spender) == if x.spender == spender {
            without_approval(s, spender)
        } else {
            without_approval(s, spender).push(x)
        },
    decreases s.len(),
{
    let p = s.push(x);
    if s.len() == 0 {
        assert(p[0] == x);
        assert(p.drop_first() =~= Seq::<ApprovalView>::empty());
        assert(without_approval(Seq::<ApprovalView>::empty(), spender)
            =~= Seq::<ApprovalView>::empty());
        assert(without_approval(s, spender) =~= Seq::<ApprovalView>::empty());
        if x.spender != spender {
            assert(without_approval(p, spender) =~= seq![x]);
            assert(without_approval(s, spender).push(x) =~= seq![x]);
        }
    } else {
        assert(p[0] == s[0]);
        lemma_without_push(s.drop_first(), x, spender);
        assert(p.drop_first() =~= s.drop_first().push(x));
        if s[0].spender != spender && x.spender != spender {
            assert((seq![s[0]] + without_approval(s.drop_first(), spender).push(x)) =~= (seq![s[0]]
                + without_approval(s.drop_first(), spender)).push(x));
        }
    }
}

/// Looks the spender's approval up.
pub fn approval_of<'a>(approvals: &'a Vec<Approval>, spender: &str) -> (r: Option<&'a Approval>)
    ensures
        match r {
            Some(a) => find_approval(approvals.deep_view(), spender@) == Some(a.deep_view()),
            None => find_approval(approvals.deep_view(), spender@) is None,
        },
{
    let n = approvals.len();
    let mut i: usize = 0;
    while i < n
        invariant
            n == approvals@.len(),
            0 <= i <= n,
            forall|j: int| 0 <= j < i ==> (#[trigger] approvals.deep_view()[j]).spender != spender@,
        decreases n - i,
    {
        let a = &approvals[i];
        if matches!(crate::order::str_cmp(a.spender.as_str(), spender), crate::order::KeyOrder::Eq) {
            proof {
                assert(approvals.deep_view()[i as int] == a.deep_view());
                lemma_find_at(approvals.deep_view(), i as int);
            }
            return Some(a);
        }
        proof {
            assert(approvals.deep_view()[i as int] == a.deep_view());
        }
        i += 1;
    }
    proof {
        lemma_find_absent(approvals.deep_view(), spender@);
    }
    None
}

/// The list without any approval of `spender`, order kept.
pub fn drop_approval_of(approvals: &Vec<Approval>, spender: &str) -> (r: Vec<Approval>)
    ensures
        r.deep_view() == without_approval(approvals.deep_view(), spender@),
{
    let ghost s = approvals.deep_view();
    let n = approvals.len();
    let mut out: Vec<Approval> = Vec::new();
    let mut i: usize = 0;
    proof {
        assert(s.take(0) =~= Seq::<ApprovalView>::empty());
        assert(out.deep_view() =~= without_approval(s.take(0), spender@));
    }
    while i < n
        invariant
            n == approvals@.len(),
            s == approvals.deep_view(),
            0 <= i <= n,
            out.deep_view() == without_approval(s.take(i as int), spender@),
        decreases n - i,
    {
        let a = &approvals[i];
        proof {
            assert(s[i as int] == a.deep_view());
            assert(s.take(i as int + 1).drop_last() =~= s.take(i as int));
            assert(s.take(i as int + 1).last() == s[i as int]);
            lemma_without_take_step(s, spender@, i as int);
        }
        if !matches!(
            crate::order::str_cmp(a.spender.as_str(), spender),
            crate::order::KeyOrder::Eq,
        ) {
            let ghost pre = out.deep_view();
            out.push(a.clone());
            proof {
                assert(out.deep_view() =~= pre.push(a.deep_view()));
            }
        }
        i += 1;
    }
    proof {
        assert(s.take(n as int) =~= s);
    }
    out
}

/// One step of scanning a list while removing a spender.
proof fn lemma_without_take_step(s: Seq<ApprovalView>, spender: Seq<char>, i: int)
    requires
        0 <= i < s.len(),
    ensures
        without_approval(s.take(i + 1), spender) == if s[i].spender == spender {
            without_approval(s.take(i), spender)
        } else {
            without_approval(s.take(i), spender).push(s[i])
        },
{
    assert(s.take(i + 1) =~= s.take(i).push(s[i]));
    lemma_without_push(s.take(i), s[i], spender);
}

/// The approvals a query shows: all of them, or the unexpired ones, as clones.
pub fn visible_of(approvals: &Vec<Approval>, include_expired: bool, now: u64) -> (r: Vec<Approval>)
    ensures
        r.deep_view() == visible_approvals(approvals.deep_view(), include_expired, now),
{
    let ghost s = approvals.deep_view();
    let n = approvals.len();
    let mut out: Vec<Approval> = Vec::new();
    let mut i: usize = 0;
    proof {
        assert(s.take(0) =~= Seq::<ApprovalView>::empty());
        assert(out.deep_view() =~= visible_approvals(s.take(0), include_expired, now));
    }
    while i < n
        invariant
            n == approvals@.len(),
            s == approvals.deep_view(),
            0 <= i <= n,
            out.deep_view() == visible_approvals(s.take(i as int), include_expired, now),
        decreases n - i,
    {
        let a = &approvals[i];
        proof {
            assert(s[i as int] == a.deep_view());
            assert(s.take(i as int + 1).drop_last() =~= s.take(i as int));
            assert(s.take(i as int + 1).last() == s[i as int]);
        }
        let keep = include_expired || match a.expires {
            Option::None => true,
            Option::Some(e) => e > now,
        };
        if keep {
            let ghost pre = out.deep_view();
            out.push(a.clone());
            proof {
                assert(out.deep_view() =~= pre.push(a.deep_view()));
            }
        }
        i += 1;
    }
    proof {
        assert(s.take(n as int) =~= s);
    }
    out
}

} // verus!
