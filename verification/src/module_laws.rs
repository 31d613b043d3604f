//! How modules are named, resolved and refused.

use crate::loader::{
    local_specifier, resolver_answer, specifier_url, stage_text, static_name, static_or_denied,
    target_text, target_url, uri_outcome, ErrorClass, LoaderStage, LoaderView, ModuleErrorView,
    ResolverOutcome,
};
use crate::stream_laws::ends_with;
use crate::text::{has_prefix, has_substring, occurs_at};
use vstd::prelude::*;

verus! {

/// A specifier with a colon in it, or that starts with a slash, is a URL by itself;
/// every other is resolved against the runtime's own base.
pub proof fn law_specifiers_are_absolute_or_bare(
    specifier: Seq<char>,
    parsed: Result<Seq<char>, Seq<char>>,
    base: Result<Seq<char>, Seq<char>>,
    joined: Result<Seq<char>, Seq<char>>,
)
    ensures
        specifier.contains(':') || (specifier.len() > 0 && specifier[0] == '/') ==> (specifier_url(
            specifier,
            parsed,
            base,
            joined,
        ) is Ok <==> parsed is Ok) && (parsed is Ok ==> specifier_url(
            specifier,
            parsed,
            base,
            joined,
        ) == parsed) && (parsed is Err ==> ends_with(
            specifier_url(specifier, parsed, base, joined)->Err_0,
            parsed->Err_0,
        )),
        !specifier.contains(':') && (specifier.len() == 0 || specifier[0] != '/') && base is Ok ==> (
        specifier_url(specifier, parsed, base, joined) is Ok <==> joined is Ok) && (joined is Ok
            ==> specifier_url(specifier, parsed, base, joined) == joined) && (joined is Err
            ==> ends_with(
            specifier_url(specifier, parsed, base, joined)->Err_0,
            joined->Err_0,
        )),
{
    reveal_strlit(":");
    reveal_strlit("/");
    if specifier.contains(':') {
        let i = choose|i: int| 0 <= i < specifier.len() && specifier[i] == ':';
        assert(specifier.subrange(i, i + 1) =~= ":"@);
        assert(occurs_at(specifier, ":"@, i));
    }
    if has_substring(specifier, ":"@) {
        let at = choose|at: int| occurs_at(specifier, ":"@, at);
        assert(specifier.subrange(at, at + 1)[0] == ":"@[0]);
        assert(specifier[at] == ':');
    }
    if specifier.len() > 0 && specifier[0] == '/' {
        assert(specifier.subrange(0, 1) =~= "/"@);
    }
    if has_prefix(specifier, "/"@) {
        assert(specifier.subrange(0, 1)[0] == "/"@[0]);
    }
    if parsed is Err {
        let e = parsed->Err_0;
        let text = "Invalid module specifier '"@ + specifier + "': "@ + e;
        assert(text.subrange(text.len() - e.len(), text.len() as int) =~= e);
    }
    if joined is Err {
        let e = joined->Err_0;
        let text = "Failed to resolve module specifier '"@ + specifier + "': "@ + e;
        assert(text.subrange(text.len() - e.len(), text.len() as int) =~= e);
    }
}

/// What the resolver names is what the specifier means, whether or not a static module
/// has its name. A resolver that names nothing leaves it to the static modules, and one
/// that fails makes the import fail with what was raised.
pub proof fn law_resolvers_are_followed(
    loader: LoaderView,
    specifier: Seq<char>,
    outcome: ResolverOutcome,
)
    ensures
        outcome is Text && outcome->Text_0@.len() > 0 ==> resolver_answer(
            loader,
            specifier,
            outcome,
        ) == Ok::<_, ModuleErrorView>(outcome->Text_0@),
        outcome is NoneValue || (outcome is Text && outcome->Text_0@.len() == 0) ==> (
        resolver_answer(loader, specifier, outcome) is Ok <==> loader.modules.contains_key(
            static_name(specifier),
        )),
        outcome is Raised ==> resolver_answer(loader, specifier, outcome) is Err
            && resolver_answer(loader, specifier, outcome)->Err_0.class == ErrorClass::Generic
            && ends_with(
            resolver_answer(loader, specifier, outcome)->Err_0.message,
            outcome->Raised_0@,
        ),
        outcome is NotText ==> resolver_answer(loader, specifier, outcome) is Err
            && resolver_answer(loader, specifier, outcome)->Err_0.class == ErrorClass::TypeError
            && ends_with(
            resolver_answer(loader, specifier, outcome)->Err_0.message,
            outcome->NotText_0@,
        ),
{
    match outcome {
        ResolverOutcome::Raised(e) => {
            let text = "Module resolution failed for "@ + specifier + ": "@ + e@;
            assert(text.subrange(text.len() - e@.len(), text.len() as int) =~= e@);
        },
        ResolverOutcome::NotText(e) => {
            let text = "Module resolver must return a string or None: "@ + e@;
            assert(text.subrange(text.len() - e@.len(), text.len() as int) =~= e@);
        },
        _ => {},
    }
}

/// A module that is registered under no such name is denied, and the denial names it and
/// says why.
pub proof fn law_denials_name_the_module(loader: LoaderView, specifier: Seq<char>, why: Seq<char>)
    requires
        !loader.modules.contains_key(specifier),
        !has_prefix(specifier, "static:"@),
    ensures
        static_or_denied(loader, specifier, why) is Err,
        static_or_denied(loader, specifier, why)->Err_0.class == ErrorClass::Generic,
        has_prefix(
            static_or_denied(loader, specifier, why)->Err_0.message,
            "Module resolution denied for "@ + specifier,
        ),
        ends_with(static_or_denied(loader, specifier, why)->Err_0.message, why),
{
    let start = "Module resolution denied for "@ + specifier;
    let text = start + ". "@ + why;
    assert(text.subrange(0, start.len() as int) =~= start);
    assert(text.subrange(text.len() - why.len(), text.len() as int) =~= why);
}

/// The runtime's own base is dropped from a specifier, and nothing else is.
pub proof fn law_own_base_is_dropped(specifier: Seq<char>)
    ensures
        local_specifier("pydeno://runtime/"@ + specifier) == specifier,
        !has_prefix(specifier, "pydeno://runtime/"@) ==> local_specifier(specifier) == specifier,
        static_name("static:"@ + specifier) == specifier,
        !has_prefix(specifier, "static:"@) ==> static_name(specifier) == specifier,
{
    let based = "pydeno://runtime/"@ + specifier;
    let n = "pydeno://runtime/"@.len() as int;
    assert(based.subrange(0, n) =~= "pydeno://runtime/"@);
    assert(based.skip(n) =~= specifier);
    let named = "static:"@ + specifier;
    let m = "static:"@.len() as int;
    assert(named.subrange(0, m) =~= "static:"@);
    assert(named.skip(m) =~= specifier);
}

/// What a specifier means is parsed as a URL: a failure to resolve stays as it was, and a
/// failure to parse is the engine's URI error.
pub proof fn law_targets_are_parsed(
    target: Result<Seq<char>, ModuleErrorView>,
    parsed: Result<Seq<char>, Seq<char>>,
)
    ensures
        target is Err ==> target_url(target, parsed) == target,
        target is Ok ==> target_text(target) == target->Ok_0,
        target is Ok && parsed is Ok ==> target_url(target, parsed) == Ok::<_, ModuleErrorView>(
            parsed->Ok_0,
        ),
        target is Ok && parsed is Err ==> target_url(target, parsed) is Err && target_url(
            target,
            parsed,
        )->Err_0.class == ErrorClass::UriError && target_url(target, parsed)->Err_0.message
            == parsed->Err_0,
        parsed is Ok ==> uri_outcome(parsed) is Ok && uri_outcome(parsed)->Ok_0 == parsed->Ok_0,
        parsed is Err ==> uri_outcome(parsed) is Err,
{
}

/// Every stage of a load that can fail says so in words of its own.
pub proof fn law_load_failures_are_told_apart(stage: LoaderStage, other: LoaderStage)
    ensures
        stage_text(stage) == stage_text(other) ==> stage == other,
        stage_text(stage).len() > 0,
{
    reveal_strlit("Failed to call module loader: ");
    reveal_strlit("Failed to import inspect module: ");
    reveal_strlit("Failed to check if result is coroutine: ");
    reveal_strlit("Failed to extract boolean from iscoroutine check: ");
    reveal_strlit("Failed to create async future: ");
    reveal_strlit("Module loader failed: ");
    reveal_strlit("Module loader must return a string: ");
    assert("Failed to call module loader: "@.len() == 30);
    assert("Failed to import inspect module: "@.len() == 33);
    assert("Failed to check if result is coroutine: "@.len() == 40);
    assert("Failed to extract boolean from iscoroutine check: "@.len() == 50);
    assert("Failed to create async future: "@.len() == 31);
    assert("Module loader failed: "@.len() == 22);
    assert("Module loader must return a string: "@.len() == 36);
}

} // verus!
