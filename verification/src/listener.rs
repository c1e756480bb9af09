//! Decisions of the runtime that monitors the calls made by the fuzzed code: whether the
//! monitoring is on, what to do when a monitored function is entered or returns, and which
//! symbol a policy monitors.

use vstd::prelude::*;
use crate::engine::{
    infringement_text, outcome, rule_after, rule_evaluable, verdict, Context, FunctionPolicy,
    MemoryValue, RuleError, RuleErrorView,
};
use crate::text::{chars_of, concat, contains, contains_text, push_char, same_text};

verus! {

/// Flag that is on while the fuzzed code runs: only then are monitored calls checked.
#[derive(Debug)]
pub struct InterceptionSwitch {
    flag: bool,
}

impl View for InterceptionSwitch {
    type V = bool;

    closed spec fn view(&self) -> bool {
        self.flag
    }
}

impl InterceptionSwitch {
    /// A switch that is off
    pub fn new() -> (s: Self)
        ensures
            !s@,
    {
        InterceptionSwitch { flag: false }
    }

    /// Turn the monitoring on
    pub fn activate(&mut self)
        ensures
            final(self)@,
    {
        self.flag = true;
    }

    /// Turn the monitoring off
    pub fn deactivate(&mut self)
        ensures
            !final(self)@,
    {
        self.flag = false;
    }

    /// Whether the monitoring is on
    pub fn is_active(&self) -> (b: bool)
        ensures
            b == self@,
    {
        self.flag
    }
}

/// What the runtime does with a monitored call.
#[derive(Debug)]
pub enum ListenerVerdict {
    /// Let the call go on
    Proceed,
    /// Stop the fuzzed code: the call breaks the policy. The message says why.
    Intercept(String),
    /// Stop the fuzzer: the policy could not be evaluated
    EvaluationFailed(RuleError),
}

/// The listener to one of the functions which access is targeted
#[derive(Debug)]
pub struct FunctionListener {
    /// Name of the function targeted
    pub function_name: String,
    /// Policy applied to this function
    pub policy: FunctionPolicy,
}

/// The message given when a monitored call is intercepted.
pub open spec fn interception_text(function_name: Seq<char>, policy: FunctionPolicy, context: Context) -> Seq<char> {
    match context {
        Context::EntryContext(_) => "Intercepting call to ["@ + function_name + "].\n"@ + infringement_text(policy, context),
        Context::LeaveContext(_) => "Intercepting returning function ["@ + function_name + "].\n"@ + infringement_text(policy, context),
    }
}

impl FunctionListener {
    /// A listener for the function of `policy`
    pub fn new(policy: FunctionPolicy) -> (l: Self)
        ensures
            l.function_name@ == policy.name@,
            l.policy == policy,
    {
        FunctionListener { function_name: policy.name.clone(), policy }
    }

    /// Decide what to do with a call to the monitored function, entered (`EntryContext`) or
    /// returning (`LeaveContext`). Calls made while the monitoring is off always proceed, and
    /// leave the listener as it was. Otherwise the policy's rule is evaluated with the memory
    /// value it reads; a call that breaks it is intercepted.
    pub fn on_call(&mut self, monitoring: bool, context: &Context, memory: &MemoryValue) -> (r: ListenerVerdict)
        requires
            monitoring ==> rule_evaluable(old(self).policy.rule, *context),
        ensures
            !monitoring ==> r is Proceed && *final(self) == *old(self),
            monitoring ==> final(self).function_name == old(self).function_name,
            monitoring ==> final(self).policy == (FunctionPolicy { rule: rule_after(old(self).policy.rule, *context), ..old(self).policy }),
            monitoring ==> match verdict(old(self).policy.rule, *context, *memory) {
                Ok(false) => r is Proceed,
                Ok(true) => r matches ListenerVerdict::Intercept(m)
                    && m@ == interception_text(old(self).function_name@, final(self).policy, *context),
                Err(e) => r matches ListenerVerdict::EvaluationFailed(x) && x@ == e,
            },
    {
        if !monitoring {
            return ListenerVerdict::Proceed;
        }
        match self.policy.rule.should_block(context, memory) {
            Ok(false) => ListenerVerdict::Proceed,
            Ok(true) => {
                let start: &str = match context {
                    Context::EntryContext(_) => "Intercepting call to [",
                    Context::LeaveContext(_) => "Intercepting returning function [",
                };
                let mut m: String = concat(String::from_str(start), self.function_name.as_str());
                m = concat(m, "].\n");
                let details: String = self.policy.policy_infringement_message(context);
                m = concat(m, details.as_str());
                ListenerVerdict::Intercept(m)
            },
            Err(e) => ListenerVerdict::EvaluationFailed(e),
        }
    }
}

/// The index of the first module whose name (or path) contains `lib`.
pub open spec fn first_module_with(modules: Seq<Seq<char>>, lib: Seq<char>, i: int) -> bool {
    &&& 0 <= i < modules.len()
    &&& contains_text(modules[i], lib)
    &&& forall|j: int| 0 <= j < i ==> !contains_text(#[trigger] modules[j], lib)
}

/// The policies, in order, whose function was found (`found` tells, policy by policy).
pub open spec fn kept_policies(policies: Seq<FunctionPolicy>, found: Seq<bool>) -> Seq<FunctionPolicy>
    decreases policies.len(),
{
    if policies.len() == 0 {
        Seq::empty()
    } else {
        let n = policies.len() - 1;
        kept_policies(policies.take(n), found.take(n)) + (if found[n] { seq![policies[n]] } else { Seq::empty() })
    }
}

/// The listeners of the runtime: one for each policy whose function was found in the loaded
/// modules, in order; the policies of functions that are not loaded get none.
pub fn found_listeners(policies: Vec<FunctionPolicy>, found: &Vec<bool>) -> (r: Vec<FunctionListener>)
    requires
        policies@.len() == found@.len(),
    ensures
        r@.map_values(|l: FunctionListener| l.policy) == kept_policies(policies@, found@),
        forall|i: int| 0 <= i < r@.len() ==> (#[trigger] r@[i]).function_name@ == r@[i].policy.name@,
{
    let ghost all = policies@;
    let mut rest: Vec<FunctionPolicy> = policies;
    let mut r: Vec<FunctionListener> = Vec::new();
    let mut i: usize = 0;
    while i < found.len()
        invariant
            found@.len() == all.len(),
            i <= all.len(),
            rest@ == all.skip(i as int),
            r@.map_values(|l: FunctionListener| l.policy) == kept_policies(all.take(i as int), found@.take(i as int)),
            forall|j: int| 0 <= j < r@.len() ==> (#[trigger] r@[j]).function_name@ == r@[j].policy.name@,
        decreases all.len() - i,
    {
        let ghost before = r@.map_values(|l: FunctionListener| l.policy);
        let p: FunctionPolicy = rest.remove(0);
        assert(p == all[i as int]);
        assert(all.take(i + 1).take(i as int) =~= all.take(i as int));
        assert(found@.take(i + 1).take(i as int) =~= found@.take(i as int));
        if found[i] {
            r.push(FunctionListener::new(p));
            assert(r@.map_values(|l: FunctionListener| l.policy) =~= before.push(all[i as int]));
        }
        assert(rest@ =~= all.skip(i + 1));
        i = i + 1;
    }
    assert(all.take(all.len() as int) =~= all);
    assert(found@.take(found@.len() as int) =~= found@);
    r
}

/// The index of the first module whose name (or path) contains `lib`, if any.
fn first_module(modules: &Vec<String>, lib: &str) -> (r: Option<usize>)
    ensures
        r matches Some(i) ==> first_module_with(modules.deep_view(), lib@, i as int),
        r is None ==> forall|j: int| 0 <= j < modules@.len() ==> !contains_text(#[trigger] modules.deep_view()[j], lib@),
{
    let mut i: usize = 0;
    while i < modules.len()
        invariant
            i <= modules@.len(),
            forall|j: int| 0 <= j < i ==> !contains_text(#[trigger] modules.deep_view()[j], lib@),
        decreases modules@.len() - i,
    {
        if contains(modules[i].as_str(), lib) {
            assert(modules.deep_view()[i as int] == modules@[i as int]@);
            return Some(i);
        }
        i = i + 1;
    }
    None
}

/// Some module's name (or path) contains `lib`.
pub open spec fn module_present(modules: Seq<Seq<char>>, lib: Seq<char>) -> bool {
    exists|j: int| 0 <= j < modules.len() && contains_text(#[trigger] modules[j], lib)
}

/// Whether the library `lib` of a policy is among the loaded modules: whether some module's
/// name (or path) contains it.
pub fn has_module(modules: &Vec<String>, lib: &str) -> (r: bool)
    ensures
        r == module_present(modules.deep_view(), lib@),
{
    match first_module(modules, lib) {
        Some(i) => {
            assert(contains_text(modules.deep_view()[i as int], lib@));
            true
        },
        None => false,
    }
}

/// Find the module in which a policy's library resides: the first module whose name (or path)
/// contains the library's name. The library must be loaded (see [`has_module`]).
pub fn find_module(modules: &Vec<String>, lib: &str) -> (r: usize)
    requires
        module_present(modules.deep_view(), lib@),
    ensures
        first_module_with(modules.deep_view(), lib@, r as int),
{
    match first_module(modules, lib) {
        Some(i) => i,
        None => {
            let ghost j = choose|j: int| 0 <= j < modules@.len() && contains_text(#[trigger] modules.deep_view()[j], lib@);
            assert(false);
            0
        },
    }
}

/// The tokens of `s` from position `i` on, `cur` being the part of the current token read
/// so far: the text is cut at each `"::"`, found from left to right.
pub open spec fn split_from(s: Seq<char>, i: int, cur: Seq<char>) -> Seq<Seq<char>>
    decreases s.len() - i,
{
    if i >= s.len() {
        seq![cur]
    } else if i + 1 < s.len() && s[i] == ':' && s[i + 1] == ':' {
        seq![cur] + split_from(s, i + 2, Seq::empty())
    } else {
        split_from(s, i + 1, cur.push(s[i]))
    }
}

/// The tokens of a Rust path, as `name.split("::")` gives them.
pub open spec fn path_tokens(name: Seq<char>) -> Seq<Seq<char>> {
    split_from(name, 0, Seq::empty())
}

/// The tokens of a Rust path, cut at each `"::"`.
fn split_path(name: &str) -> (tokens: Vec<String>)
    ensures
        tokens.deep_view() == path_tokens(name@),
{
    let chars: Vec<char> = chars_of(name);
    let mut tokens: Vec<String> = Vec::new();
    let mut cur: String = String::new();
    let mut i: usize = 0;
    assert(tokens.deep_view() + split_from(name@, 0, cur@) =~= path_tokens(name@));
    while i < chars.len()
        invariant
            chars@ == name@,
            i <= chars@.len(),
            tokens.deep_view() + split_from(name@, i as int, cur@) == path_tokens(name@),
        decreases chars@.len() - i,
    {
        let ghost before = tokens.deep_view();
        let ghost before_cur = cur@;
        if i + 1 < chars.len() && chars[i] == ':' && chars[i + 1] == ':' {
            tokens.push(cur);
            cur = String::new();
            assert(tokens.deep_view() =~= before.push(before_cur));
            assert(before + split_from(name@, i as int, before_cur)
                =~= tokens.deep_view() + split_from(name@, i + 2, cur@));
            i = i + 2;
        } else {
            push_char(&mut cur, chars[i]);
            i = i + 1;
        }
    }
    let ghost before = tokens.deep_view();
    let ghost before_cur = cur@;
    tokens.push(cur);
    assert(tokens.deep_view() =~= before.push(before_cur));
    assert(before + split_from(name@, i as int, before_cur) =~= tokens.deep_view());
    tokens
}

/// The symbol names the mangled name of a function of path `tokens`: it contains every token,
/// and it is neither a `$got` nor a `$GT` variant.
pub open spec fn names_function(symbol: Seq<char>, tokens: Seq<Seq<char>>) -> bool {
    &&& forall|k: int| 0 <= k < tokens.len() ==> contains_text(symbol, #[trigger] tokens[k])
    &&& !contains_text(symbol, "$got"@)
    &&& !contains_text(symbol, "$GT"@)
}

/// Whether `symbol` names the mangled name of a function of path `tokens`.
fn is_candidate(symbol: &str, tokens: &Vec<String>) -> (r: bool)
    ensures
        r == names_function(symbol@, tokens.deep_view()),
{
    let mut k: usize = 0;
    while k < tokens.len()
        invariant
            k <= tokens@.len(),
            forall|j: int| 0 <= j < k ==> contains_text(symbol@, #[trigger] tokens.deep_view()[j]),
        decreases tokens@.len() - k,
    {
        if !contains(symbol, tokens[k].as_str()) {
            assert(tokens.deep_view()[k as int] == tokens@[k as int]@);
            return false;
        }
        k = k + 1;
    }
    !contains(symbol, "$got") && !contains(symbol, "$GT")
}

/// The symbols, in order, that name the mangled name of a function of path `tokens`.
pub open spec fn candidates(symbols: Seq<Seq<char>>, tokens: Seq<Seq<char>>) -> Seq<Seq<char>> {
    symbols.filter(|s: Seq<char>| names_function(s, tokens))
}

/// What the search for a monitored function's symbol found.
#[derive(Debug)]
pub enum SymbolLookup {
    /// No symbol: the function is not loaded in the binary
    NotLoaded,
    /// The name of the function's symbol
    Found(String),
}

/// The symbols, in order, that name the mangled name of the Rust function of path
/// `function_path`: those that contain every token of the path and are neither a `$got`
/// nor a `$GT` variant.
pub fn matching_symbols(function_path: &str, symbols: &Vec<String>) -> (r: Vec<String>)
    ensures
        r.deep_view() == candidates(symbols.deep_view(), path_tokens(function_path@)),
{
    let tokens: Vec<String> = split_path(function_path);
    let ghost t = tokens.deep_view();
    let ghost pred = |s: Seq<char>| names_function(s, t);
    let mut found: Vec<String> = Vec::new();
    let mut i: usize = 0;
    while i < symbols.len()
        invariant
            i <= symbols@.len(),
            t == tokens.deep_view(),
            pred == (|s: Seq<char>| names_function(s, t)),
            found.deep_view() == symbols.deep_view().take(i as int).filter(pred),
        decreases symbols@.len() - i,
    {
        reveal_with_fuel(Seq::<_>::filter, 1);
        let keep: bool = is_candidate(symbols[i].as_str(), &tokens);
        let ghost before = found.deep_view();
        if keep {
            found.push(symbols[i].clone());
            assert(found.deep_view() =~= before.push(symbols@[i as int]@));
        }
        assert(symbols.deep_view().take(i + 1).drop_last() =~= symbols.deep_view().take(i as int));
        assert(symbols.deep_view().take(i + 1).last() == symbols@[i as int]@);
        i = i + 1;
    }
    assert(symbols.deep_view().take(symbols@.len() as int) =~= symbols.deep_view());
    found
}

/// Find the name under which the function of `policy` can be found among `symbols` (the
/// symbols then the exports of its module). A C function is found under its own name. A Rust
/// function's name is mangled: it is found under the only symbol that contains every token
/// of its path and is neither a `$got` nor a `$GT` variant. Several such symbols should not
/// exist; the caller checks that there are not (see [`matching_symbols`]).
pub fn resolve_function_name(policy: &FunctionPolicy, symbols: &Vec<String>) -> (r: SymbolLookup)
    requires
        policy.is_rust_function ==> candidates(symbols.deep_view(), path_tokens(policy.name@)).len() <= 1,
    ensures
        !policy.is_rust_function ==> (r matches SymbolLookup::Found(n) && n@ == policy.name@),
        policy.is_rust_function ==> ({
            let found = candidates(symbols.deep_view(), path_tokens(policy.name@));
            &&& found.len() == 0 ==> r is NotLoaded
            &&& found.len() == 1 ==> (r matches SymbolLookup::Found(n) && n@ == found[0])
        }),
{
    if !policy.is_rust_function {
        return SymbolLookup::Found(policy.name.clone());
    }
    let found: Vec<String> = matching_symbols(policy.name.as_str(), symbols);
    if found.len() == 0 {
        SymbolLookup::NotLoaded
    } else {
        SymbolLookup::Found(found[0].clone())
    }
}

/// Whether an instruction mnemonic is the `syscall` instruction
pub fn is_syscall_instruction(mnemonic: &str) -> (r: bool)
    ensures
        r == (mnemonic@ == "syscall"@),
{
    same_text(mnemonic, "syscall")
}

} // verus!
