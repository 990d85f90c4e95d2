//! The attribute token parser: a single left-to-right pass over one
//! annotation's tokens that fills in a [`Cfg`].
//!
//! The pass is permissive: unrecognized tokens are ignored and never an
//! error.  It recognizes
//! - the method-family keywords `get`, `get_mut`, `set`, `debug`, `new`
//!   (the first one encountered wins),
//! - `skip`, `pub`, `private`, and a parenthesized `crate` or `super`
//!   refinement directly after `pub` (looked ahead without consuming
//!   anything when the next token is no such group),
//! - the return-strategy keywords `reference`, `clone`, `copy`, `deref`
//!   and the setter keywords `AsRef` and `Into` (first one wins),
//! - a custom-type directive `type(..)`, whose parenthesized text either
//!   names a return strategy or is classified into a setter strategy,
//! - any other group, whose content is parsed with the same
//!   configuration accumulator.

use vstd::prelude::*;
use crate::cfg::{spec_cfg_default, Cfg, CfgView};
use crate::func::{spec_func_type_of, FuncType};
use crate::strategy::{
    classify_parameter_expression, return_strategy_of, spec_classify_param,
    spec_return_strategy_of, ParamStrategy, ReturnStrategy,
};
use crate::text::str_eq;
use crate::token::{
    lemma_tokens_view_index, lemma_tokens_view_len, render_tokens, tokens_text, tokens_view, Attr,
    Delim, Token, TokenView,
};
use crate::input::{attrs_view, InputModel};
use crate::visibility::{parse_visibility, spec_parse_visibility, Visibility};

verus! {

/// The effect of one identifier token that needs no lookahead: method
/// family (first wins), `skip`, `private`, a return-strategy keyword
/// (first wins), or a setter keyword (first wins); anything else changes
/// nothing.
pub open spec fn spec_apply_ident(cfg: CfgView, s: Seq<char>) -> CfgView {
    if spec_func_type_of(s) != FuncType::Unknown {
        if cfg.func_type == FuncType::Unknown {
            CfgView { func_type: spec_func_type_of(s), ..cfg }
        } else {
            cfg
        }
    } else if s == "skip"@ {
        CfgView { skip: true, ..cfg }
    } else if s == "private"@ {
        CfgView { visibility: Visibility::Private, ..cfg }
    } else if spec_return_strategy_of(s) is Some {
        if cfg.return_strategy == ReturnStrategy::Inferred {
            CfgView { return_strategy: spec_return_strategy_of(s)->Some_0, ..cfg }
        } else {
            cfg
        }
    } else if s == "AsRef"@ {
        if cfg.param_strategy == ParamStrategy::Direct {
            CfgView { param_strategy: ParamStrategy::ViaAsRef, ..cfg }
        } else {
            cfg
        }
    } else if s == "Into"@ {
        if cfg.param_strategy == ParamStrategy::Direct {
            CfgView { param_strategy: ParamStrategy::ViaInto, ..cfg }
        } else {
            cfg
        }
    } else {
        cfg
    }
}

/// The effect of a custom-type directive `type(..)` with the given
/// captured text: a return-strategy keyword sets the return strategy
/// (first wins); any other text is classified into a setter strategy
/// and captured (first wins); text that classifies as `Direct` changes
/// nothing.
pub open spec fn spec_apply_type_directive(cfg: CfgView, txt: Seq<char>) -> CfgView {
    match spec_return_strategy_of(txt) {
        Some(rs) => if cfg.return_strategy == ReturnStrategy::Inferred {
            CfgView { return_strategy: rs, ..cfg }
        } else {
            cfg
        },
        None => if spec_classify_param(txt) == ParamStrategy::Direct {
            cfg
        } else if cfg.param_strategy == ParamStrategy::Direct {
            CfgView {
                param_strategy: spec_classify_param(txt),
                param_override: Some(txt),
                ..cfg
            }
        } else {
            cfg
        },
    }
}

/// Whether a token is a parenthesized group.
pub open spec fn spec_is_paren_group(t: TokenView) -> bool {
    t is Group && t->Group_0 == Delim::Paren
}

/// The parse of one annotation's tokens from position `i` on, starting
/// from `cfg`.  One pass, left to right; nested groups are parsed with
/// the same accumulator; `pub` and `type` look one token ahead and
/// consume the following parenthesized group only when it belongs to
/// them.
pub open spec fn spec_parse_from(ts: Seq<TokenView>, i: int, cfg: CfgView) -> CfgView
    decreases ts, ts.len() - i,
{
    if i < 0 || i >= ts.len() {
        cfg
    } else {
        match ts[i] {
            TokenView::Ident(s) => {
                if s == "pub"@ {
                    if i + 1 < ts.len() && spec_is_paren_group(ts[i + 1]) {
                        let txt = tokens_text(ts[i + 1]->Group_1);
                        if txt == "crate"@ {
                            spec_parse_from(
                                ts,
                                i + 2,
                                CfgView { visibility: Visibility::PublicCrate, ..cfg },
                            )
                        } else if txt == "super"@ {
                            spec_parse_from(
                                ts,
                                i + 2,
                                CfgView { visibility: Visibility::PublicSuper, ..cfg },
                            )
                        } else {
                            spec_parse_from(
                                ts,
                                i + 1,
                                CfgView { visibility: Visibility::Public, ..cfg },
                            )
                        }
                    } else {
                        spec_parse_from(ts, i + 1, CfgView { visibility: Visibility::Public, ..cfg })
                    }
                } else if s == "type"@ {
                    if i + 1 < ts.len() && spec_is_paren_group(ts[i + 1]) {
                        spec_parse_from(
                            ts,
                            i + 2,
                            spec_apply_type_directive(cfg, tokens_text(ts[i + 1]->Group_1)),
                        )
                    } else {
                        spec_parse_from(ts, i + 1, cfg)
                    }
                } else {
                    spec_parse_from(ts, i + 1, spec_apply_ident(cfg, s))
                }
            }
            TokenView::Group(_, inner) => spec_parse_from(ts, i + 1, spec_parse_from(inner, 0, cfg)),
            _ => spec_parse_from(ts, i + 1, cfg),
        }
    }
}

/// The parse of one whole annotation, starting from the default
/// configuration.
pub open spec fn spec_analyze(ts: Seq<TokenView>) -> CfgView {
    spec_parse_from(ts, 0, spec_cfg_default())
}

/// Parses the given tokens into `cfg`, as [`spec_parse_from`]
/// describes.
#[verifier::loop_isolation(false)]
pub fn parse_tokens(tokens: &Vec<Token>, cfg: &mut Cfg)
    ensures
        final(cfg)@ == spec_parse_from(tokens_view(tokens@), 0, old(cfg)@),
    decreases tokens@,
{
    broadcast use lemma_tokens_view_len, lemma_tokens_view_index;

    let ghost views = tokens_view(tokens@);
    let ghost cfg0 = cfg@;
    proof {
        assert(spec_parse_from(views, 0, cfg0) == spec_parse_from(views, 0, cfg@));
    }
    let n = tokens.len();
    let mut i: usize = 0;
    while i < n
        invariant
            i <= n,
            spec_parse_from(views, 0, cfg0) == spec_parse_from(views, i as int, cfg@),
        decreases n - i,
    {
        let ghost cfg_pre = cfg@;
        let mut consumed: usize = 1;
        match &tokens[i] {
            Token::Ident(s) => {
                if str_eq(s.as_str(), "pub") {
                    let mut handled = false;
                    if i + 1 < n {
                        if let Token::Group(d, inner) = &tokens[i + 1] {
                            if matches!(d, Delim::Paren) {
                                let txt = render_tokens(inner);
                                if str_eq(txt.as_str(), "crate") {
                                    cfg.visibility = Visibility::PublicCrate;
                                    consumed = 2;
                                    handled = true;
                                } else if str_eq(txt.as_str(), "super") {
                                    cfg.visibility = Visibility::PublicSuper;
                                    consumed = 2;
                                    handled = true;
                                }
                            }
                        }
                    }
                    if !handled {
                        cfg.visibility = Visibility::Public;
                    }
                } else if str_eq(s.as_str(), "type") {
                    if i + 1 < n {
                        if let Token::Group(d, inner) = &tokens[i + 1] {
                            if matches!(d, Delim::Paren) {
                                let txt = render_tokens(inner);
                                match return_strategy_of(txt.as_str()) {
                                    Some(rs) => {
                                        if matches!(cfg.return_strategy, ReturnStrategy::Inferred) {
                                            cfg.return_strategy = rs;
                                        }
                                    }
                                    None => {
                                        let ps = classify_parameter_expression(txt.as_str());
                                        if !matches!(ps, ParamStrategy::Direct) && matches!(
                                            cfg.param_strategy,
                                            ParamStrategy::Direct,
                                        ) {
                                            cfg.param_strategy = ps;
                                            cfg.param_override = Some(txt);
                                        }
                                    }
                                }
                                consumed = 2;
                            }
                        }
                    }
                } else {
                    let ft = FuncType::from_keyword(s.as_str());
                    if !ft.is_unknown() {
                        if cfg.func_type.is_unknown() {
                            cfg.func_type = ft;
                        }
                    } else if str_eq(s.as_str(), "skip") {
                        cfg.skip = true;
                    } else if str_eq(s.as_str(), "private") {
                        cfg.visibility = Visibility::Private;
                    } else {
                        match return_strategy_of(s.as_str()) {
                            Some(rs) => {
                                if matches!(cfg.return_strategy, ReturnStrategy::Inferred) {
                                    cfg.return_strategy = rs;
                                }
                            }
                            None => {
                                if str_eq(s.as_str(), "AsRef") {
                                    if matches!(cfg.param_strategy, ParamStrategy::Direct) {
                                        cfg.param_strategy = ParamStrategy::ViaAsRef;
                                    }
                                } else if str_eq(s.as_str(), "Into") {
                                    if matches!(cfg.param_strategy, ParamStrategy::Direct) {
                                        cfg.param_strategy = ParamStrategy::ViaInto;
                                    }
                                }
                            }
                        }
                    }
                    proof {
                        assert(cfg@ == spec_apply_ident(cfg_pre, s@));
                    }
                }
            }
            Token::Group(_, inner) => {
                proof {
                    assert(decreases_to!(tokens@ => tokens@[i as int]));
                    assert(decreases_to!(tokens@[i as int] => inner@));
                    assert(decreases_to!(tokens@ => inner@));
                }
                parse_tokens(inner, cfg);
            }
            Token::Punct(_) => {}
            Token::Literal(_) => {}
        }
        proof {
            assert(spec_parse_from(views, i as int, cfg_pre) == spec_parse_from(
                views,
                i as int + consumed as int,
                cfg@,
            ));
        }
        i = i + consumed;
    }
    proof {
        assert(spec_parse_from(views, n as int, cfg@) == cfg@);
    }
}

/// Parses one whole annotation into a fresh configuration, as
/// [`spec_analyze`] describes.
pub fn analyze_attributes(attr: &Attr) -> (r: Cfg)
    ensures
        r@ == spec_analyze(attr@),
{
    let mut cfg = Cfg::default();
    parse_tokens(&attr.tokens, &mut cfg);
    cfg
}

/// The last access level named by an identifier directly inside a
/// group, starting from `acc`; identifiers that name none leave `acc`.
pub open spec fn spec_group_vis(g: Seq<TokenView>, acc: Visibility) -> Visibility
    decreases g,
{
    if g.len() == 0 {
        acc
    } else {
        let acc2 = match g[0] {
            TokenView::Ident(s) => match spec_parse_visibility(s) {
                Some(v) => v,
                None => acc,
            },
            _ => acc,
        };
        spec_group_vis(g.drop_first(), acc2)
    }
}

/// The scan of a structure-level `new(..)` directive's content from
/// position `j` on: the first identifier that names an access level
/// decides — a bare `pub` additionally looks at a following
/// parenthesized refinement; a group contributes its last named access
/// level and the scan goes on.
pub open spec fn spec_new_vis_scan(ts: Seq<TokenView>, j: int, acc: Visibility) -> Visibility
    decreases ts.len() - j,
{
    if j < 0 || j >= ts.len() {
        acc
    } else {
        match ts[j] {
            TokenView::Ident(s) => match spec_parse_visibility(s) {
                Some(Visibility::Public) => if j + 1 < ts.len() && spec_is_paren_group(ts[j + 1]) {
                    match spec_parse_visibility(tokens_text(ts[j + 1]->Group_1)) {
                        Some(v) => v,
                        None => Visibility::Public,
                    }
                } else {
                    Visibility::Public
                },
                Some(v) => v,
                None => spec_new_vis_scan(ts, j + 1, acc),
            },
            TokenView::Group(_, g) => spec_new_vis_scan(ts, j + 1, spec_group_vis(g, acc)),
            _ => spec_new_vis_scan(ts, j + 1, acc),
        }
    }
}

/// Whether an annotation is a structure-level constructor directive:
/// exactly the identifier `new` followed by a parenthesized group.
pub open spec fn spec_is_new_attr(a: Seq<TokenView>) -> bool {
    a.len() == 2 && a[0] == TokenView::Ident("new"@) && spec_is_paren_group(a[1])
}

/// The constructor's access level named by the definition's
/// annotations: the first `new(..)` annotation decides, by
/// [`spec_new_vis_scan`]; with no such annotation the constructor is
/// public.
pub open spec fn spec_parse_new_visibility(ats: Seq<Seq<TokenView>>, k: int) -> Visibility
    decreases ats.len() - k,
{
    if k < 0 || k >= ats.len() {
        Visibility::Public
    } else if spec_is_new_attr(ats[k]) {
        spec_new_vis_scan(ats[k][1]->Group_1, 0, Visibility::Public)
    } else {
        spec_parse_new_visibility(ats, k + 1)
    }
}

/// Reads the constructor's access level from the definition's
/// annotations, as [`spec_parse_new_visibility`] describes.
#[verifier::loop_isolation(false)]
pub fn parse_new_visibility(input: &InputModel) -> (r: Visibility)
    ensures
        r == spec_parse_new_visibility(attrs_view(input.attrs@), 0),
{
    broadcast use lemma_tokens_view_len, lemma_tokens_view_index;

    let ghost av = attrs_view(input.attrs@);
    let n = input.attrs.len();
    let mut k: usize = 0;
    while k < n
        invariant
            k <= n,
            spec_parse_new_visibility(av, 0) == spec_parse_new_visibility(av, k as int),
        decreases n - k,
    {
        let a = &input.attrs[k];
        proof {
            assert(av[k as int] == tokens_view(a.tokens@));
        }
        let mut is_new = false;
        if a.tokens.len() == 2 {
            if let Token::Ident(s) = &a.tokens[0] {
                if str_eq(s.as_str(), "new") {
                    if let Token::Group(d, _) = &a.tokens[1] {
                        if matches!(d, Delim::Paren) {
                            is_new = true;
                        }
                    }
                }
            }
        }
        proof {
            assert(is_new == spec_is_new_attr(av[k as int]));
        }
        if is_new {
            if let Token::Group(_, inner) = &a.tokens[1] {
                let ghost gv = tokens_view(inner@);
                proof {
                    assert(av[k as int][1]->Group_1 == gv);
                }
                let m = inner.len();
                let mut vis = Visibility::Public;
                let mut j: usize = 0;
                while j < m
                    invariant
                        j <= m,
                        spec_new_vis_scan(gv, 0, Visibility::Public) == spec_new_vis_scan(
                            gv,
                            j as int,
                            vis,
                        ),
                    decreases m - j,
                {
                    let ghost vis_pre = vis;
                    match &inner[j] {
                        Token::Ident(s) => {
                            match parse_visibility(s.as_str()) {
                                Some(Visibility::Public) => {
                                    let mut out = Visibility::Public;
                                    if j + 1 < m {
                                        if let Token::Group(d2, g2) = &inner[j + 1] {
                                            if matches!(d2, Delim::Paren) {
                                                let txt = render_tokens(g2);
                                                if let Some(v2) = parse_visibility(txt.as_str()) {
                                                    out = v2;
                                                }
                                            }
                                        }
                                    }
                                    proof {
                                        assert(spec_new_vis_scan(gv, j as int, vis_pre) == out);
                                    }
                                    return out;
                                }
                                Some(v) => {
                                    proof {
                                        assert(spec_new_vis_scan(gv, j as int, vis_pre) == v);
                                    }
                                    return v;
                                }
                                None => {}
                            }
                        }
                        Token::Group(_, g) => {
                            let ghost gv2 = tokens_view(g@);
                            let ghost vis_enter = vis;
                            proof {
                                assert(gv2.skip(0) =~= gv2);
                            }
                            let m2 = g.len();
                            let mut j2: usize = 0;
                            while j2 < m2
                                invariant
                                    j2 <= m2,
                                    spec_group_vis(gv2, vis_enter) == spec_group_vis(
                                        gv2.skip(j2 as int),
                                        vis,
                                    ),
                                decreases m2 - j2,
                            {
                                proof {
                                    assert(gv2.skip(j2 as int)[0] == gv2[j2 as int]);
                                    assert(gv2.skip(j2 as int).drop_first() =~= gv2.skip(
                                        j2 as int + 1,
                                    ));
                                }
                                if let Token::Ident(s2) = &g[j2] {
                                    if let Some(v2) = parse_visibility(s2.as_str()) {
                                        vis = v2;
                                    }
                                }
                                j2 = j2 + 1;
                            }
                            proof {
                                assert(gv2.skip(m2 as int) =~= Seq::<TokenView>::empty());
                                assert(vis == spec_group_vis(gv2, vis_enter));
                            }
                        }
                        _ => {}
                    }
                    j = j + 1;
                }
                return vis;
            }
        }
        k = k + 1;
    }
    Visibility::Public
}

} // verus!
