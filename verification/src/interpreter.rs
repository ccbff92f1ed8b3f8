//! The evaluator: matches balanced parenthesis sections, resolves variable
//! references against a mutable environment, and invokes operations; plus
//! the variable-name rule that assignment enforces.

use vstd::prelude::*;
use vstd::string::StringExecFns;

use crate::functions::{apply_op, op_rel};
use crate::lexer::{
    char_is_alphabetic, char_is_alphanumeric, is_alphabetic_char, is_alphanumeric_char, string_eq_lit, Token,
};
use crate::numeric::{k_fmt, kernel_ok, rfmt, NumRequest, NumResponse};
use crate::types::{res_view, vals_view, Point, Value, ValueV};

verus! {

/// A well-formed variable name: non-empty, beginning with an alphabetic
/// character, and containing only alphanumeric characters, underscores and
/// hyphens.
pub open spec fn valid_variable_name(s: Seq<char>) -> bool {
    &&& s.len() > 0
    &&& is_alphabetic_char(s[0])
    &&& forall|i: int|
        0 <= i < s.len() ==> is_alphanumeric_char(#[trigger] s[i]) || s[i] == '_' || s[i] == '-'
}

/// Whether the string is a valid variable name.
pub fn is_valid_variable(name: &str) -> (r: bool)
    ensures
        r == valid_variable_name(name@),
{
    let chars = crate::lexer::string_chars(name);
    if chars.len() == 0 {
        return false;
    }
    if !char_is_alphabetic(chars[0]) {
        return false;
    }
    let mut i: usize = 0;
    while i < chars.len()
        invariant
            0 <= i <= chars.len(),
            chars@ == name@,
            chars.len() > 0,
            is_alphabetic_char(name@[0]),
            forall|j: int|
                0 <= j < i ==> is_alphanumeric_char(#[trigger] name@[j]) || name@[j] == '_'
                    || name@[j] == '-',
        decreases chars.len() - i,
    {
        let c = chars[i];
        if !char_is_alphanumeric(c) && c != '_' && c != '-' {
            return false;
        }
        i += 1;
    }
    true
}

/// The mathematical shadow of the variable environment: name-value pairs in
/// insertion order, names unique by construction.
pub type EnvV = Seq<(Seq<char>, ValueV)>;

/// The binding of `name` in the environment, scanning from position `i`.
pub open spec fn env_get_from(env: EnvV, name: Seq<char>, i: int) -> Option<ValueV>
    decreases env.len() - i,
{
    if i < 0 || i >= env.len() {
        None
    } else if env[i].0 == name {
        Some(env[i].1)
    } else {
        env_get_from(env, name, i + 1)
    }
}

/// The binding of `name` in the environment.
pub open spec fn env_get(env: EnvV, name: Seq<char>) -> Option<ValueV> {
    env_get_from(env, name, 0)
}

/// The environment with `name` bound to `v`, scanning from position `i`:
/// the first matching entry is replaced in place, and a missing name is
/// appended.
pub open spec fn env_set_from(env: EnvV, name: Seq<char>, v: ValueV, i: int) -> EnvV
    decreases env.len() - i,
{
    if i < 0 || i >= env.len() {
        env.push((name, v))
    } else if env[i].0 == name {
        env.update(i, (name, v))
    } else {
        env_set_from(env, name, v, i + 1)
    }
}

/// The environment with `name` bound to `v`.
pub open spec fn env_set(env: EnvV, name: Seq<char>, v: ValueV) -> EnvV {
    env_set_from(env, name, v, 0)
}

/// The variable environment of one evaluation run: name-value pairs in
/// insertion order.
pub struct Env {
    /// The bindings, oldest first.
    pub items: Vec<(String, Value)>,
}

/// The shadow of an environment.
pub open spec fn env_view(e: Env) -> EnvV {
    e.items@.map_values(|p: (String, Value)| (p.0@, p.1@))
}

/// Looks `name` up in the bindings, scanning from position `i`.
fn env_lookup_from(items: &Vec<(String, Value)>, name: &String, i: usize) -> (out: Option<Value>)
    requires
        i <= items@.len(),
    ensures
        match out {
            Some(v) => env_get_from(
                items@.map_values(|p: (String, Value)| (p.0@, p.1@)),
                name@,
                i as int,
            ) == Some(v@),
            None => env_get_from(
                items@.map_values(|p: (String, Value)| (p.0@, p.1@)),
                name@,
                i as int,
            ) is None,
        },
    decreases items@.len() - i,
{
    if i >= items.len() {
        None
    } else {
        let p = &items[i];
        if p.0 == *name {
            Some(p.1.duplicate())
        } else {
            env_lookup_from(items, name, i + 1)
        }
    }
}

/// Binds `name` to `v`, replacing the first matching entry in place or
/// appending a fresh one, scanning from position `i`.
fn env_bind_from(items: &mut Vec<(String, Value)>, name: String, v: Value, i: usize)
    requires
        i <= old(items)@.len(),
    ensures
        final(items)@.map_values(|p: (String, Value)| (p.0@, p.1@)) == env_set_from(
            old(items)@.map_values(|p: (String, Value)| (p.0@, p.1@)),
            name@,
            v@,
            i as int,
        ),
    decreases old(items)@.len() - i,
{
    if i >= items.len() {
        items.push((name, v));
        proof {
            assert(final(items)@.map_values(|p: (String, Value)| (p.0@, p.1@)) =~= env_set_from(
                old(items)@.map_values(|p: (String, Value)| (p.0@, p.1@)),
                name@,
                v@,
                i as int,
            ));
        }
    } else {
        let hit = items[i].0 == name;
        if hit {
            items.set(i, (name, v));
            proof {
                assert(final(items)@.map_values(|p: (String, Value)| (p.0@, p.1@))
                    =~= env_set_from(
                    old(items)@.map_values(|p: (String, Value)| (p.0@, p.1@)),
                    name@,
                    v@,
                    i as int,
                ));
            }
        } else {
            env_bind_from(items, name, v, i + 1);
        }
    }
}

impl Env {
    /// A fresh, empty environment.
    pub fn new() -> (e: Env)
        ensures
            env_view(e) == Seq::<(Seq<char>, ValueV)>::empty(),
    {
        let e = Env { items: Vec::new() };
        proof {
            assert(env_view(e) =~= Seq::<(Seq<char>, ValueV)>::empty());
        }
        e
    }

    /// The value bound to `name`, if any.
    pub fn get(&self, name: &String) -> (out: Option<Value>)
        ensures
            match out {
                Some(v) => env_get(env_view(*self), name@) == Some(v@),
                None => env_get(env_view(*self), name@) is None,
            },
    {
        env_lookup_from(&self.items, name, 0)
    }

    /// Binds `name` to `v`, overwriting an existing binding in place.
    pub fn set(&mut self, name: String, v: Value)
        ensures
            env_view(*final(self)) == env_set(env_view(*old(self)), name@, v@),
    {
        env_bind_from(&mut self.items, name, v, 0);
    }
}

/// The position just after the parenthesis that closes the section, given
/// the running depth, scanning positions `i` up to `e`.
pub open spec fn sect_close(ts: Seq<Token>, i: int, e: int, depth: int) -> Option<int>
    decreases e - i,
{
    if i < 0 || i >= e || e > ts.len() {
        None
    } else {
        let d = depth + (if ts[i] is LeftParen {
            1int
        } else if ts[i] is RightParen {
            -1int
        } else {
            0int
        });
        if d == 0 {
            Some(i + 1)
        } else {
            sect_close(ts, i + 1, e, d)
        }
    }
}

/// Where the section beginning at `s` ends (exclusive), within the window
/// ending at `e`: rejected when `s` does not hold a left parenthesis, or
/// when the depth never returns to zero.
pub open spec fn section_end(ts: Seq<Token>, s: int, e: int) -> Result<int, Seq<char>> {
    if s < 0 || s >= e || e > ts.len() || !(ts[s] is LeftParen) {
        Err("Expected left parenthesis"@)
    } else {
        match sect_close(ts, s, e, 0) {
            Some(j) => Ok(j),
            None => Err("Mismatched parentheses"@),
        }
    }
}

/// Scans for the closing parenthesis from position `i`, with the running
/// depth.
fn close_scan(tokens: &Vec<Token>, i: usize, e: usize, depth: i128) -> (out: Option<usize>)
    requires
        i <= e <= tokens@.len(),
        -(i as int) <= depth <= i as int,
    ensures
        match out {
            Some(j) => sect_close(tokens@, i as int, e as int, depth as int) == Some(j as int)
                && i < j <= e,
            None => sect_close(tokens@, i as int, e as int, depth as int) is None,
        },
    decreases e - i,
{
    if i >= e {
        None
    } else {
        let d: i128 = match &tokens[i] {
            Token::LeftParen => depth + 1,
            Token::RightParen => depth - 1,
            _ => depth,
        };
        if d == 0 {
            Some(i + 1)
        } else {
            close_scan(tokens, i + 1, e, d)
        }
    }
}

/// Given a token range whose first token must be a left parenthesis, return
/// the end (exclusive) of the minimal balanced section that begins there.
fn get_section(tokens: &Vec<Token>, s: usize, e: usize) -> (out: Result<usize, String>)
    requires
        s <= e <= tokens@.len(),
    ensures
        match out {
            Ok(j) => section_end(tokens@, s as int, e as int) == Ok::<int, Seq<char>>(j as int)
                && s < j <= e,
            Err(m) => section_end(tokens@, s as int, e as int) == Err::<int, Seq<char>>(m@),
        },
{
    if s >= e {
        return Err("Expected left parenthesis".to_owned());
    }
    match &tokens[s] {
        Token::LeftParen => {},
        _ => { return Err("Expected left parenthesis".to_owned()) },
    }
    match close_scan(tokens, s, e, 0) {
        Some(j) => Ok(j),
        None => Err("Mismatched parentheses".to_owned()),
    }
}

/// An argument value placed before the remaining walk outcome: the list
/// grows at the front, and a failure passes through.
pub open spec fn cons_arg(
    a: ValueV,
    rest: Result<Seq<ValueV>, Seq<char>>,
    wout: Result<Seq<ValueV>, Seq<char>>,
) -> bool {
    match rest {
        Ok(args) => wout == Ok::<Seq<ValueV>, Seq<char>>(seq![a] + args),
        Err(m) => wout == Err::<Seq<ValueV>, Seq<char>>(m),
    }
}

/// The argument a variable reference flattens to: its bound value, or text
/// holding its name when unbound.
pub open spec fn var_arg(env0: EnvV, name: Seq<char>) -> ValueV {
    match env_get(env0, name) {
        Some(val) => val,
        None => ValueV::Text(name),
    }
}

/// A derivation of one argument walk: the intermediate outcomes that a run
/// of the walk produced, so that the walk relation needs no quantifiers.
pub enum WalkD {
    /// A walk that ended without recursion.
    Leaf,
    /// One literal or variable argument: the tail's outcome and derivation.
    Arg(Result<Seq<ValueV>, Seq<char>>, Box<WalkD>),
    /// One nested section: its outcome, the environment after it, its
    /// reduction derivation, then the tail's outcome and derivation.
    Sect(
        Result<ValueV, Seq<char>>,
        EnvV,
        Box<ReduceD>,
        Result<Seq<ValueV>, Seq<char>>,
        Box<WalkD>,
    ),
}

/// A derivation of one reduction.
pub enum ReduceD {
    /// A reduction that ended without a call.
    Leaf,
    /// A call: the argument walk's outcome, the environment after it, the
    /// walk's derivation, and the operation's outcome.
    Call(Result<Seq<ValueV>, Seq<char>>, EnvV, Box<WalkD>, Result<ValueV, Seq<char>>),
}

/// A derivation of the top-level walk.
pub enum EvalD {
    /// A walk that ended without recursion.
    Leaf,
    /// One top-level section: its outcome, the environment after it, its
    /// reduction derivation, then the tail's outcome and derivation.
    Sect(
        Result<ValueV, Seq<char>>,
        EnvV,
        Box<ReduceD>,
        Result<Seq<ValueV>, Seq<char>>,
        Box<EvalD>,
    ),
    /// One bare literal or bound variable: the tail's outcome and
    /// derivation.
    Item(Result<Seq<ValueV>, Seq<char>>, Box<EvalD>),
}

/// A derivation of the label pass.
pub enum LabelsD {
    /// Past the last entry.
    Leaf,
    /// A point-valued entry: the two formatted coordinates, then the
    /// remaining labels and their derivation.
    Pt(Seq<char>, Seq<char>, Seq<ValueV>, Box<LabelsD>),
    /// An entry of another kind.
    Skip(Box<LabelsD>),
}

/// The assignment special case applied to one successful operation
/// outcome: when the called name is the assignment operator and the first
/// flattened argument is text, the value is written into the environment
/// and the reduction yields the no-display value.
pub open spec fn apply_step(
    name: Seq<char>,
    argsv: Seq<ValueV>,
    ores: Result<ValueV, Seq<char>>,
    envm: EnvV,
    out: Result<ValueV, Seq<char>>,
    env1: EnvV,
) -> bool {
    match ores {
        Err(m) => out == Err::<ValueV, Seq<char>>(m) && env1 == envm,
        Ok(v) => if name == "setq"@ && argsv.len() >= 1 && argsv[0] is Text {
            env1 == env_set(envm, argsv[0]->Text_0, v) && out == Ok::<ValueV, Seq<char>>(
                ValueV::Undefined,
            )
        } else {
            out == Ok::<ValueV, Seq<char>>(v) && env1 == envm
        },
    }
}

/// The walk over a call's argument tokens in `[i, e - 1)`, witnessed by the
/// derivation `d`: literals pass through, bound variables substitute their
/// current value, unbound ones flatten to text holding their name, and a
/// nested section reduces recursively, threading the environment left to
/// right.
pub open spec fn walk_rel<F: Fn(NumRequest) -> NumResponse>(
    k: F,
    ts: Seq<Token>,
    i: int,
    e: int,
    env0: EnvV,
    wout: Result<Seq<ValueV>, Seq<char>>,
    env1: EnvV,
    d: WalkD,
) -> bool
    decreases d,
{
    if i < 0 || i >= e - 1 || e > ts.len() {
        wout == Ok::<Seq<ValueV>, Seq<char>>(Seq::empty()) && env1 == env0
    } else if ts[i] is Literal {
        match d {
            WalkD::Arg(rwout, rest) => walk_rel(k, ts, i + 1, e, env0, rwout, env1, *rest)
                && cons_arg(ts[i]->Literal_0.value@, rwout, wout),
            _ => false,
        }
    } else if ts[i] is Variable {
        match d {
            WalkD::Arg(rwout, rest) => walk_rel(k, ts, i + 1, e, env0, rwout, env1, *rest)
                && cons_arg(var_arg(env0, ts[i]->Variable_0.name@), rwout, wout),
            _ => false,
        }
    } else if ts[i] is LeftParen {
        if section_end(ts, i, e) is Err {
            wout == Err::<Seq<ValueV>, Seq<char>>(section_end(ts, i, e)->Err_0) && env1 == env0
        } else {
            let j = section_end(ts, i, e)->Ok_0;
            i < j <= e && match d {
                WalkD::Sect(nout, envm, sub, rwout, rest) => reduce_rel(
                    k,
                    ts,
                    i,
                    j,
                    env0,
                    nout,
                    envm,
                    *sub,
                ) && (if nout is Err {
                    wout == Err::<Seq<ValueV>, Seq<char>>(nout->Err_0) && env1 == envm
                } else {
                    walk_rel(k, ts, j, e, envm, rwout, env1, *rest) && cons_arg(
                        nout->Ok_0,
                        rwout,
                        wout,
                    )
                }),
                _ => false,
            }
        }
    } else if ts[i] is RightParen {
        wout == Err::<Seq<ValueV>, Seq<char>>("Unexpected token: RightParen"@) && env1 == env0
    } else {
        wout == Err::<Seq<ValueV>, Seq<char>>(
            "Unexpected token: Function: "@ + ts[i]->Function_0.name@,
        ) && env1 == env0
    }
}

/// The reduction of the token range `[s, e)` to one value, witnessed by the
/// derivation `d` and threading the environment: a single literal reduces
/// to its value; a parenthesized call walks its arguments, applies the
/// named operation, and handles assignment specially.
pub open spec fn reduce_rel<F: Fn(NumRequest) -> NumResponse>(
    k: F,
    ts: Seq<Token>,
    s: int,
    e: int,
    env0: EnvV,
    out: Result<ValueV, Seq<char>>,
    env1: EnvV,
    d: ReduceD,
) -> bool
    decreases d,
{
    if e - s <= 0 {
        out == Err::<ValueV, Seq<char>>("Empty tokens"@) && env1 == env0
    } else if e - s == 1 {
        if ts[s] is Literal {
            out == Ok::<ValueV, Seq<char>>(ts[s]->Literal_0.value@) && env1 == env0
        } else {
            out == Err::<ValueV, Seq<char>>("Single token must be a literal"@) && env1 == env0
        }
    } else if !(ts[s] is LeftParen) {
        out == Err::<ValueV, Seq<char>>("Expected left parenthesis"@) && env1 == env0
    } else if !(ts[s + 1] is Function) {
        out == Err::<ValueV, Seq<char>>("Expected function"@) && env1 == env0
    } else {
        match d {
            ReduceD::Call(wout, envm, wd, ores) => walk_rel(k, ts, s + 2, e, env0, wout, envm, *wd)
                && (match wout {
                Err(m) => out == Err::<ValueV, Seq<char>>(m) && env1 == envm,
                Ok(argsv) => op_rel(k, ts[s + 1]->Function_0.op, argsv, ores) && apply_step(
                    ts[s + 1]->Function_0.name@,
                    argsv,
                    ores,
                    envm,
                    out,
                    env1,
                ),
            }),
            _ => false,
        }
    }
}

/// The top-level walk over the whole token sequence, witnessed by the
/// derivation `d`: each section reduces to one value, bare literals pass
/// through, and a bare variable must already be bound.
pub open spec fn eval_rel<F: Fn(NumRequest) -> NumResponse>(
    k: F,
    ts: Seq<Token>,
    i: int,
    env0: EnvV,
    vout: Result<Seq<ValueV>, Seq<char>>,
    env1: EnvV,
    d: EvalD,
) -> bool
    decreases d,
{
    if i < 0 || i >= ts.len() {
        vout == Ok::<Seq<ValueV>, Seq<char>>(Seq::empty()) && env1 == env0
    } else if ts[i] is LeftParen {
        if section_end(ts, i, ts.len() as int) is Err {
            vout == Err::<Seq<ValueV>, Seq<char>>(section_end(ts, i, ts.len() as int)->Err_0)
                && env1 == env0
        } else {
            let j = section_end(ts, i, ts.len() as int)->Ok_0;
            i < j <= ts.len() && match d {
                EvalD::Sect(nout, envm, sub, rvout, rest) => reduce_rel(
                    k,
                    ts,
                    i,
                    j,
                    env0,
                    nout,
                    envm,
                    *sub,
                ) && (if nout is Err {
                    vout == Err::<Seq<ValueV>, Seq<char>>(nout->Err_0) && env1 == envm
                } else {
                    eval_rel(k, ts, j, envm, rvout, env1, *rest) && cons_arg(
                        nout->Ok_0,
                        rvout,
                        vout,
                    )
                }),
                _ => false,
            }
        }
    } else if ts[i] is Literal {
        match d {
            EvalD::Item(rvout, rest) => eval_rel(k, ts, i + 1, env0, rvout, env1, *rest)
                && cons_arg(ts[i]->Literal_0.value@, rvout, vout),
            _ => false,
        }
    } else if ts[i] is Variable {
        if env_get(env0, ts[i]->Variable_0.name@) is None {
            vout == Err::<Seq<ValueV>, Seq<char>>("Undefined variable when evaluating"@) && env1
                == env0
        } else {
            match d {
                EvalD::Item(rvout, rest) => eval_rel(k, ts, i + 1, env0, rvout, env1, *rest)
                    && cons_arg(var_arg(env0, ts[i]->Variable_0.name@), rvout, vout),
                _ => false,
            }
        }
    } else {
        vout == Err::<Seq<ValueV>, Seq<char>>("Unexpected token when evaluating"@) && env1
            == env0
    }
}

/// The text of a point label: the variable's name and the two formatted
/// coordinates, space-separated.
pub open spec fn label_text(name: Seq<char>, sx: Seq<char>, sy: Seq<char>) -> Seq<char> {
    name + " "@ + sx + " "@ + sy
}

/// The point labels synthesized from the environment entries from position
/// `i` on, witnessed by the derivation `d`: one text value per point-valued
/// binding, in insertion order.
pub open spec fn labels_rel<F: Fn(NumRequest) -> NumResponse>(
    k: F,
    env: EnvV,
    i: int,
    out: Seq<ValueV>,
    d: LabelsD,
) -> bool
    decreases d,
{
    if i < 0 || i >= env.len() {
        out == Seq::<ValueV>::empty()
    } else if env[i].1 is Point {
        match d {
            LabelsD::Pt(sx, sy, rest_out, rest) => {
                &&& k_fmt(k, env[i].1->Point_0.x, sx)
                &&& k_fmt(k, env[i].1->Point_0.y, sy)
                &&& labels_rel(k, env, i + 1, rest_out, *rest)
                &&& out == seq![ValueV::Text(label_text(env[i].0, sx, sy))] + rest_out
            },
            _ => false,
        }
    } else {
        match d {
            LabelsD::Skip(rest) => labels_rel(k, env, i + 1, out, *rest),
            _ => false,
        }
    }
}

/// The view of a walk's outcome.
pub open spec fn wres_view(out: Result<Vec<Value>, String>) -> Result<Seq<ValueV>, Seq<char>> {
    match out {
        Ok(v) => Ok(vals_view(v@)),
        Err(m) => Err(m@),
    }
}

/// Walks a call's argument tokens, reducing nested sections and flattening
/// variable references; also returns the derivation that witnesses the
/// walk.
fn walk_args<F: Fn(NumRequest) -> NumResponse>(
    tokens: &Vec<Token>,
    i: usize,
    e: usize,
    env: &mut Env,
    kernel: &F,
) -> (out: (Result<Vec<Value>, String>, Ghost<WalkD>))
    requires
        kernel_ok(*kernel),
        1 <= e <= tokens@.len(),
        i <= e,
    ensures
        walk_rel(
            *kernel,
            tokens@,
            i as int,
            e as int,
            env_view(*old(env)),
            wres_view(out.0),
            env_view(*final(env)),
            out.1@,
        ),
    decreases e - i, 1int,
{
    if i >= e - 1 {
        let out: Vec<Value> = Vec::new();
        proof {
            assert(vals_view(out@) =~= Seq::<ValueV>::empty());
        }
        return (Ok(out), Ghost(WalkD::Leaf));
    }
    match &tokens[i] {
        Token::Literal(l) => {
            let a = l.value.duplicate();
            let (rres, rd) = walk_args(tokens, i + 1, e, env, kernel);
            let ghost rwout = wres_view(rres);
            match rres {
                Ok(mut rest) => {
                    let ghost restv = vals_view(rest@);
                    rest.insert(0, a);
                    proof {
                        assert(vals_view(rest@) =~= seq![l.value@] + restv);
                    }
                    (Ok(rest), Ghost(WalkD::Arg(rwout, Box::new(rd@))))
                },
                Err(m) => (Err(m), Ghost(WalkD::Arg(rwout, Box::new(rd@)))),
            }
        },
        Token::Variable(v) => {
            let a = match env.get(&v.name) {
                Some(val) => val,
                None => Value::Text(v.name.clone()),
            };
            let ghost av = a@;
            let (rres, rd) = walk_args(tokens, i + 1, e, env, kernel);
            let ghost rwout = wres_view(rres);
            match rres {
                Ok(mut rest) => {
                    let ghost restv = vals_view(rest@);
                    rest.insert(0, a);
                    proof {
                        assert(vals_view(rest@) =~= seq![av] + restv);
                    }
                    (Ok(rest), Ghost(WalkD::Arg(rwout, Box::new(rd@))))
                },
                Err(m) => (Err(m), Ghost(WalkD::Arg(rwout, Box::new(rd@)))),
            }
        },
        Token::RightParen => (Err("Unexpected token: RightParen".to_owned()), Ghost(WalkD::Leaf)),
        Token::Function(f) => {
            let mut m = "Unexpected token: Function: ".to_owned();
            m.append(f.name.as_str());
            (Err(m), Ghost(WalkD::Leaf))
        },
        Token::LeftParen => {
            let j = match get_section(tokens, i, e) {
                Ok(j) => j,
                Err(m) => { return (Err(m), Ghost(WalkD::Leaf)) },
            };
            let ghost env0 = env_view(*env);
            let (nres, nd) = reduce(tokens, i, j, env, kernel);
            let ghost envm = env_view(*env);
            let ghost nout = res_view(nres);
            let val = match nres {
                Ok(v) => v,
                Err(m) => {
                    return (
                        Err(m),
                        Ghost(
                            WalkD::Sect(
                                nout,
                                envm,
                                Box::new(nd@),
                                Ok(Seq::empty()),
                                Box::new(WalkD::Leaf),
                            ),
                        ),
                    )
                },
            };
            let ghost valv = val@;
            let (rres, rd) = walk_args(tokens, j, e, env, kernel);
            let ghost rwout = wres_view(rres);
            match rres {
                Ok(mut rest) => {
                    let ghost restv = vals_view(rest@);
                    rest.insert(0, val);
                    proof {
                        assert(vals_view(rest@) =~= seq![valv] + restv);
                    }
                    (Ok(rest), Ghost(WalkD::Sect(nout, envm, Box::new(nd@), rwout, Box::new(rd@))))
                },
                Err(m) => (
                    Err(m),
                    Ghost(WalkD::Sect(nout, envm, Box::new(nd@), rwout, Box::new(rd@))),
                ),
            }
        },
    }
}

/// Given a balanced token range, reduce it to a value, threading the
/// variable environment; the assignment operation additionally writes its
/// binding and yields the no-display value. Also returns the derivation
/// that witnesses the reduction.
fn reduce<F: Fn(NumRequest) -> NumResponse>(
    tokens: &Vec<Token>,
    s: usize,
    e: usize,
    env: &mut Env,
    kernel: &F,
) -> (out: (Result<Value, String>, Ghost<ReduceD>))
    requires
        kernel_ok(*kernel),
        s <= e <= tokens@.len(),
    ensures
        reduce_rel(
            *kernel,
            tokens@,
            s as int,
            e as int,
            env_view(*old(env)),
            res_view(out.0),
            env_view(*final(env)),
            out.1@,
        ),
    decreases e - s, 0int,
{
    if e - s == 0 {
        return (Err("Empty tokens".to_owned()), Ghost(ReduceD::Leaf));
    }
    if e - s == 1 {
        return match &tokens[s] {
            Token::Literal(l) => (Ok(l.value.duplicate()), Ghost(ReduceD::Leaf)),
            _ => (Err("Single token must be a literal".to_owned()), Ghost(ReduceD::Leaf)),
        };
    }
    match &tokens[s] {
        Token::LeftParen => {},
        _ => { return (Err("Expected left parenthesis".to_owned()), Ghost(ReduceD::Leaf)) },
    }
    let (name, op) = match &tokens[s + 1] {
        Token::Function(f) => (f.name.clone(), f.op),
        _ => { return (Err("Expected function".to_owned()), Ghost(ReduceD::Leaf)) },
    };

    let ghost env0 = env_view(*env);
    let (wres, wd) = walk_args(tokens, s + 2, e, env, kernel);
    let ghost envm = env_view(*env);
    let ghost wout = wres_view(wres);
    let argsv = match wres {
        Ok(a) => a,
        Err(m) => {
            return (
                Err(m),
                Ghost(ReduceD::Call(wout, envm, Box::new(wd@), Err(Seq::empty()))),
            )
        },
    };

    let ores = apply_op(op, kernel, argsv.as_slice());
    let ghost oresv = res_view(ores);
    let ghost deriv = ReduceD::Call(wout, envm, Box::new(wd@), oresv);
    match ores {
        Err(m) => (Err(m), Ghost(deriv)),
        Ok(v) => {
            let is_setq = string_eq_lit(&name, "setq");
            if is_setq && argsv.len() >= 1 {
                let target = match &argsv[0] {
                    Value::Text(nm) => Some(nm.clone()),
                    _ => None,
                };
                match target {
                    Some(nm) => {
                        env.set(nm, v);
                        proof {
                            assert(vals_view(argsv@)[0] == argsv@[0]@);
                        }
                        (Ok(Value::Undefined), Ghost(deriv))
                    },
                    None => {
                        proof {
                            assert(vals_view(argsv@)[0] == argsv@[0]@);
                            assert(!(vals_view(argsv@)[0] is Text));
                        }
                        (Ok(v), Ghost(deriv))
                    },
                }
            } else {
                (Ok(v), Ghost(deriv))
            }
        },
    }
}

/// Evaluates the token sequence from position `i` on, threading the
/// environment; also returns the derivation that witnesses the run.
fn eval_from<F: Fn(NumRequest) -> NumResponse>(
    tokens: &Vec<Token>,
    i: usize,
    env: &mut Env,
    kernel: &F,
) -> (out: (Result<Vec<Value>, String>, Ghost<EvalD>))
    requires
        kernel_ok(*kernel),
        i <= tokens@.len(),
    ensures
        eval_rel(
            *kernel,
            tokens@,
            i as int,
            env_view(*old(env)),
            wres_view(out.0),
            env_view(*final(env)),
            out.1@,
        ),
    decreases tokens@.len() - i, 2int,
{
    if i >= tokens.len() {
        let out: Vec<Value> = Vec::new();
        proof {
            assert(vals_view(out@) =~= Seq::<ValueV>::empty());
        }
        return (Ok(out), Ghost(EvalD::Leaf));
    }
    match &tokens[i] {
        Token::LeftParen => {
            let j = match get_section(tokens, i, tokens.len()) {
                Ok(j) => j,
                Err(m) => { return (Err(m), Ghost(EvalD::Leaf)) },
            };
            let ghost env0 = env_view(*env);
            let (nres, nd) = reduce(tokens, i, j, env, kernel);
            let ghost envm = env_view(*env);
            let ghost nout = res_view(nres);
            let val = match nres {
                Ok(v) => v,
                Err(m) => {
                    return (
                        Err(m),
                        Ghost(
                            EvalD::Sect(
                                nout,
                                envm,
                                Box::new(nd@),
                                Ok(Seq::empty()),
                                Box::new(EvalD::Leaf),
                            ),
                        ),
                    )
                },
            };
            let ghost valv = val@;
            let (rres, rd) = eval_from(tokens, j, env, kernel);
            let ghost rvout = wres_view(rres);
            match rres {
                Ok(mut rest) => {
                    let ghost restv = vals_view(rest@);
                    rest.insert(0, val);
                    proof {
                        assert(vals_view(rest@) =~= seq![valv] + restv);
                    }
                    (Ok(rest), Ghost(EvalD::Sect(nout, envm, Box::new(nd@), rvout, Box::new(rd@))))
                },
                Err(m) => (
                    Err(m),
                    Ghost(EvalD::Sect(nout, envm, Box::new(nd@), rvout, Box::new(rd@))),
                ),
            }
        },
        Token::Literal(l) => {
            let a = l.value.duplicate();
            let (rres, rd) = eval_from(tokens, i + 1, env, kernel);
            let ghost rvout = wres_view(rres);
            match rres {
                Ok(mut rest) => {
                    let ghost restv = vals_view(rest@);
                    rest.insert(0, a);
                    proof {
                        assert(vals_view(rest@) =~= seq![l.value@] + restv);
                    }
                    (Ok(rest), Ghost(EvalD::Item(rvout, Box::new(rd@))))
                },
                Err(m) => (Err(m), Ghost(EvalD::Item(rvout, Box::new(rd@)))),
            }
        },
        Token::Variable(v) => {
            let val = match env.get(&v.name) {
                Some(val) => val,
                None => {
                    return (
                        Err("Undefined variable when evaluating".to_owned()),
                        Ghost(EvalD::Leaf),
                    )
                },
            };
            let ghost valv = val@;
            let (rres, rd) = eval_from(tokens, i + 1, env, kernel);
            let ghost rvout = wres_view(rres);
            match rres {
                Ok(mut rest) => {
                    let ghost restv = vals_view(rest@);
                    rest.insert(0, val);
                    proof {
                        assert(vals_view(rest@) =~= seq![valv] + restv);
                    }
                    (Ok(rest), Ghost(EvalD::Item(rvout, Box::new(rd@))))
                },
                Err(m) => (Err(m), Ghost(EvalD::Item(rvout, Box::new(rd@)))),
            }
        },
        _ => (Err("Unexpected token when evaluating".to_owned()), Ghost(EvalD::Leaf)),
    }
}

/// Builds the point labels from the environment entries from position `i`
/// on; also returns the derivation that witnesses the pass.
fn make_labels<F: Fn(NumRequest) -> NumResponse>(env: &Env, i: usize, kernel: &F) -> (out: (
    Vec<Value>,
    Ghost<LabelsD>,
))
    requires
        kernel_ok(*kernel),
        i <= env.items@.len(),
    ensures
        labels_rel(*kernel, env_view(*env), i as int, vals_view(out.0@), out.1@),
    decreases env.items@.len() - i,
{
    if i >= env.items.len() {
        let out: Vec<Value> = Vec::new();
        proof {
            assert(vals_view(out@) =~= Seq::<ValueV>::empty());
        }
        return (out, Ghost(LabelsD::Leaf));
    }
    let entry = &env.items[i];
    match &entry.1 {
        Value::Point(p) => {
            let sx = rfmt(kernel, p.x);
            let sy = rfmt(kernel, p.y);
            let mut label = entry.0.clone();
            label.append(" ");
            label.append(sx.as_str());
            label.append(" ");
            label.append(sy.as_str());
            proof {
                assert(label@ == label_text(entry.0@, sx@, sy@));
            }
            let (mut rest, rd) = make_labels(env, i + 1, kernel);
            let ghost restv = vals_view(rest@);
            rest.insert(0, Value::Text(label));
            proof {
                assert(env_view(*env)[i as int] == (entry.0@, entry.1@));
                assert(vals_view(rest@) =~= seq![
                    ValueV::Text(label_text(env_view(*env)[i as int].0, sx@, sy@)),
                ] + restv);
            }
            (rest, Ghost(LabelsD::Pt(sx@, sy@, restv, Box::new(rd@))))
        },
        _ => {
            proof {
                assert(env_view(*env)[i as int] == (entry.0@, entry.1@));
            }
            let (rest, rd) = make_labels(env, i + 1, kernel);
            (rest, Ghost(LabelsD::Skip(Box::new(rd@))))
        },
    }
}

/// Given a token sequence, evaluate it to an ordered list of values: each
/// top-level section reduces to one value, and every point-valued binding
/// surviving to the end of the run is appended as a label, in insertion
/// order. The first failure anywhere aborts the whole evaluation. The
/// contract states that some derivation witnesses the run: the values are
/// exactly the reduced sections and literals, followed by the labels.
pub fn evaluate<F: Fn(NumRequest) -> NumResponse>(tokens: Vec<Token>, kernel: &F) -> (out: Result<
    Vec<Value>,
    String,
>)
    requires
        kernel_ok(*kernel),
    ensures
        out matches Err(m) ==> exists|d: EvalD, envf: EnvV|
            #[trigger] eval_rel(
                *kernel,
                tokens@,
                0,
                Seq::<(Seq<char>, ValueV)>::empty(),
                Err(m@),
                envf,
                d,
            ),
        out matches Ok(vs) ==> exists|
            d: EvalD,
            ld: LabelsD,
            envf: EnvV,
            vals: Seq<ValueV>,
            labels: Seq<ValueV>,
        |
            {
                &&& #[trigger] eval_rel(
                    *kernel,
                    tokens@,
                    0,
                    Seq::<(Seq<char>, ValueV)>::empty(),
                    Ok(vals),
                    envf,
                    d,
                )
                &&& #[trigger] labels_rel(*kernel, envf, 0, labels, ld)
                &&& vals_view(vs@) == vals + labels
            },
{
    let mut env = Env::new();
    let (body, bd) = eval_from(&tokens, 0, &mut env, kernel);
    let ghost envf = env_view(env);
    let ghost bodyv = wres_view(body);
    let mut vals = match body {
        Ok(v) => v,
        Err(m) => { return Err(m) },
    };
    let ghost valsv = vals_view(vals@);
    let (mut labels, ld) = make_labels(&env, 0, kernel);
    let ghost labelsv = vals_view(labels@);
    vals.append(&mut labels);
    proof {
        assert(vals_view(vals@) =~= valsv + labelsv);
    }
    Ok(vals)
}

/// Binding a name and then looking it up yields the bound value.
pub proof fn lemma_env_set_get_same(env: EnvV, name: Seq<char>, v: ValueV, i: int)
    requires
        0 <= i <= env.len(),
    ensures
        env_get_from(env_set_from(env, name, v, i), name, i) == Some(v),
    decreases env.len() - i,
{
    if i >= env.len() {
        let env2 = env.push((name, v));
        assert(env2[i] == (name, v));
    } else if env[i].0 == name {
        let env2 = env.update(i, (name, v));
        assert(env2[i] == (name, v));
    } else {
        lemma_env_set_get_same(env, name, v, i + 1);
        lemma_env_set_prefix(env, name, v, i + 1, i);
    }
}

/// Binding one name leaves the binding of any other name unchanged.
pub proof fn lemma_env_set_get_other(
    env: EnvV,
    name: Seq<char>,
    other: Seq<char>,
    v: ValueV,
    i: int,
)
    requires
        0 <= i <= env.len(),
        name != other,
    ensures
        env_get_from(env_set_from(env, name, v, i), other, i) == env_get_from(env, other, i),
    decreases env.len() - i,
{
    if i >= env.len() {
        let env2 = env.push((name, v));
        assert(env2[i] == (name, v));
        assert(env_get_from(env2, other, i) == env_get_from(env2, other, i + 1));
        assert(env_get_from(env2, other, i + 1) is None);
    } else if env[i].0 == name {
        assert(env.update(i, (name, v))[i] == (name, v));
        let env2 = env.update(i, (name, v));
        assert(env2[i].0 != other);
        assert(forall|j: int| i < j < env.len() ==> env2[j] == env[j]);
        lemma_env_get_agree(env2, env, other, i + 1);
    } else {
        lemma_env_set_get_other(env, name, other, v, i + 1);
        lemma_env_set_prefix(env, name, v, i + 1, i);
        let env2 = env_set_from(env, name, v, i + 1);
        assert(env_set_from(env, name, v, i) == env2);
        assert(env2[i] == env[i]);
    }
}

/// Two environments that agree from position `i` on agree on lookups from
/// `i`.
proof fn lemma_env_get_agree(env2: EnvV, env: EnvV, name: Seq<char>, i: int)
    requires
        env2.len() == env.len(),
        forall|j: int| i <= j < env.len() ==> env2[j] == env[j],
    ensures
        env_get_from(env2, name, i) == env_get_from(env, name, i),
    decreases env.len() - i,
{
    if 0 <= i < env.len() {
        lemma_env_get_agree(env2, env, name, i + 1);
    }
}

/// Binding from position `i` on does not touch earlier entries.
proof fn lemma_env_set_prefix(env: EnvV, name: Seq<char>, v: ValueV, i: int, j: int)
    requires
        0 <= j < i,
        j < env.len(),
        i <= env.len(),
    ensures
        env_set_from(env, name, v, i).len() >= env.len(),
        env_set_from(env, name, v, i)[j] == env[j],
    decreases env.len() - i,
{
    if i >= env.len() {
    } else if env[i].0 == name {
    } else {
        lemma_env_set_prefix(env, name, v, i + 1, j);
    }
}

} // verus!
