//! Module resolution and loading: static modules, and delegation to Python callables.

use crate::error::{ErrorView, RuntimeError, RuntimeResult};
use crate::text::{
    contains, has_prefix, has_substring, join2, join3, starts_with, str_eq, strip_prefix,
};
use vstd::prelude::*;

verus! {

/// What `url::Url::parse` makes of a text: the serialization of the URL, or the text
/// of the error.
pub uninterp spec fn url_parse(text: Seq<char>) -> Result<Seq<char>, Seq<char>>;

/// What `url::Url::join` makes of a base URL and a text: the serialization of the
/// URL, or the text of the error.
pub uninterp spec fn url_join(base: Seq<char>, text: Seq<char>) -> Result<Seq<char>, Seq<char>>;

/// A text or the text of an error.
pub open spec fn text_outcome(result: Result<String, String>) -> Result<Seq<char>, Seq<char>> {
    match result {
        Ok(text) => Ok(text@),
        Err(text) => Err(text@),
    }
}

/// Calls `url::Url::parse`; the result depends on the text alone.
#[verifier::external_body]
fn parse(text: &str) -> (result: Result<String, String>)
    ensures
        text_outcome(result) == url_parse(text@),
{
    match url::Url::parse(text) {
        Ok(url) => Ok(url.as_str().to_string()),
        Err(err) => Err(err.to_string()),
    }
}

/// Calls `url::Url::join` on the URL that `base` is the text of; the result depends
/// on the two texts alone.
#[verifier::external_body]
fn join(base: &str, text: &str) -> (result: Result<String, String>)
    requires
        url_parse(base@) is Ok,
    ensures
        text_outcome(result) == url_join(base@, text@),
{
    match url::Url::parse(base).and_then(|url| url.join(text)) {
        Ok(url) => Ok(url.as_str().to_string()),
        Err(err) => Err(err.to_string()),
    }
}

/// The URL that a specifier stands for, or the text of the failure: an absolute one
/// is parsed, a bare one is resolved against `pydeno://runtime/`.
pub open spec fn specifier_url(
    specifier: Seq<char>,
    parsed: Result<Seq<char>, Seq<char>>,
    base: Result<Seq<char>, Seq<char>>,
    joined: Result<Seq<char>, Seq<char>>,
) -> Result<Seq<char>, Seq<char>> {
    if has_substring(specifier, ":"@) || has_prefix(specifier, "/"@) {
        match parsed {
            Ok(url) => Ok(url),
            Err(e) => Err("Invalid module specifier '"@ + specifier + "': "@ + e),
        }
    } else {
        match base {
            Err(e) => Err("Failed to create base URL: "@ + e),
            Ok(_) => match joined {
                Ok(url) => Ok(url),
                Err(e) => Err("Failed to resolve module specifier '"@ + specifier + "': "@ + e),
            },
        }
    }
}

/// Whether a specifier is parsed by itself rather than resolved against the base.
pub fn is_absolute(specifier: &str) -> (yes: bool)
    ensures
        yes == (has_substring(specifier@, ":"@) || has_prefix(specifier@, "/"@)),
{
    contains(specifier, ":") || starts_with(specifier, "/")
}

/// The URL of an absolute specifier, once it was parsed.
pub fn absolute_specifier(specifier: &str, parsed: Result<String, String>) -> (result:
    RuntimeResult<String>)
    ensures
        match (result, text_outcome(parsed)) {
            (Ok(url), Ok(p)) => url@ == p,
            (Err(err), Err(e)) => err@ == ErrorView::Internal(
                "Invalid module specifier '"@ + specifier@ + "': "@ + e,
            ),
            _ => false,
        },
{
    match parsed {
        Ok(url) => Ok(url),
        Err(e) => {
            let mut text = join3("Invalid module specifier '", specifier, "': ");
            text.append(&e);
            Err(RuntimeError::internal(text))
        },
    }
}

/// The URL of a bare specifier, once it was resolved against the base.
pub fn bare_specifier(specifier: &str, joined: Result<String, String>) -> (result: RuntimeResult<
    String,
>)
    ensures
        match (result, text_outcome(joined)) {
            (Ok(url), Ok(j)) => url@ == j,
            (Err(err), Err(e)) => err@ == ErrorView::Internal(
                "Failed to resolve module specifier '"@ + specifier@ + "': "@ + e,
            ),
            _ => false,
        },
{
    match joined {
        Ok(url) => Ok(url),
        Err(e) => {
            let mut text = join3("Failed to resolve module specifier '", specifier, "': ");
            text.append(&e);
            Err(RuntimeError::internal(text))
        },
    }
}

/// Parse an absolute specifier, or resolve a bare one against `pydeno://runtime/`.
pub fn module_specifier(specifier: &str) -> (result: RuntimeResult<String>)
    ensures
        match result {
            Ok(url) => specifier_url(
                specifier@,
                url_parse(specifier@),
                url_parse("pydeno://runtime/"@),
                url_join("pydeno://runtime/"@, specifier@),
            ) == Ok::<_, Seq<char>>(url@),
            Err(err) => exists|text: Seq<char>|
                err@ == ErrorView::Internal(text) && #[trigger] specifier_url(
                    specifier@,
                    url_parse(specifier@),
                    url_parse("pydeno://runtime/"@),
                    url_join("pydeno://runtime/"@, specifier@),
                ) == Err::<Seq<char>, _>(text),
        },
{
    if is_absolute(specifier) {
        let result: RuntimeResult<String> = absolute_specifier(specifier, parse(specifier));
        assert(result is Err ==> result->Err_0@ is Internal);
        return result;
    }
    match parse("pydeno://runtime/") {
        Err(e) => Err(RuntimeError::internal(join2("Failed to create base URL: ", &e))),
        Ok(_) => bare_specifier(specifier, join("pydeno://runtime/", specifier)),
    }
}

/// The error of a module that could not be loaded.
pub fn load_failure(specifier: &str, message: &str) -> (err: RuntimeError)
    ensures
        err@ == ErrorView::Internal(
            "Failed to load module '"@ + specifier@ + "': "@ + message@,
        ),
{
    let mut text = join3("Failed to load module '", specifier, "': ");
    text.append(message);
    RuntimeError::internal(text)
}

/// The error of a module whose namespace could not be had.
pub fn namespace_failure(message: &str) -> (err: RuntimeError)
    ensures
        err@ == ErrorView::Internal("Failed to get module namespace: "@ + message@),
{
    RuntimeError::internal(join2("Failed to get module namespace: ", message))
}

/// The class of an error that the engine throws.
#[derive(Clone, Copy, Debug, PartialEq, Eq, Structural)]
pub enum ErrorClass {
    Generic,
    TypeError,
    UriError,
}

/// An error that the engine throws while it resolves or loads a module.
#[derive(Debug)]
pub struct ModuleError {
    pub class: ErrorClass,
    pub message: String,
}

#[verifier::ext_equal]
pub struct ModuleErrorView {
    pub class: ErrorClass,
    pub message: Seq<char>,
}

impl View for ModuleError {
    type V = ModuleErrorView;

    open spec fn view(&self) -> ModuleErrorView {
        ModuleErrorView { class: self.class, message: self.message@ }
    }
}

/// A URL or the error.
pub open spec fn url_result(result: Result<String, ModuleError>) -> Result<
    Seq<char>,
    ModuleErrorView,
> {
    match result {
        Ok(url) => Ok(url@),
        Err(err) => Err(err@),
    }
}

/// A parsed URL, or the engine's URI error.
pub open spec fn uri_outcome(parsed: Result<Seq<char>, Seq<char>>) -> Result<
    Seq<char>,
    ModuleErrorView,
> {
    match parsed {
        Ok(url) => Ok(url),
        Err(e) => Err(ModuleErrorView { class: ErrorClass::UriError, message: e }),
    }
}

/// What a parsed URL amounts to.
pub fn parsed_url(parsed: Result<String, String>) -> (result: Result<String, ModuleError>)
    ensures
        url_result(result) == uri_outcome(text_outcome(parsed)),
{
    match parsed {
        Ok(url) => Ok(url),
        Err(message) => Err(ModuleError { class: ErrorClass::UriError, message }),
    }
}

fn parse_url(url: &str) -> (result: Result<String, ModuleError>)
    ensures
        url_result(result) == uri_outcome(url_parse(url@)),
{
    parsed_url(parse(url))
}

/// What a `PythonModuleLoader` holds.
#[verifier::ext_equal]
pub struct LoaderView {
    /// Pre-registered static modules (name -> source).
    pub modules: Map<Seq<char>, Seq<char>>,
    /// Python resolver callable, by the number under which it is kept.
    pub resolver: Option<u64>,
    /// Python loader callable, by the number under which it is kept.
    pub loader: Option<u64>,
    /// Asyncio task locals, by the number under which they are kept.
    pub task_locals: Option<u64>,
}

/// A specifier without the prefix of the runtime's own base URL.
pub open spec fn local_specifier(specifier: Seq<char>) -> Seq<char> {
    if has_prefix(specifier, "pydeno://runtime/"@) {
        specifier.skip("pydeno://runtime/"@.len() as int)
    } else {
        specifier
    }
}

/// The name of the static module that a specifier means.
pub open spec fn static_name(specifier: Seq<char>) -> Seq<char> {
    if has_prefix(specifier, "static:"@) {
        specifier.skip("static:"@.len() as int)
    } else {
        specifier
    }
}

/// The URL under which a static module is known.
pub open spec fn static_url(specifier: Seq<char>) -> Seq<char> {
    "pydeno://static/"@ + static_name(specifier)
}

/// The URL of a static module, still to be parsed, or the denial.
pub open spec fn static_or_denied(loader: LoaderView, specifier: Seq<char>, why: Seq<char>) -> Result<
    Seq<char>,
    ModuleErrorView,
> {
    if loader.modules.contains_key(static_name(specifier)) {
        Ok(static_url(specifier))
    } else {
        Err(
            ModuleErrorView {
                class: ErrorClass::Generic,
                message: "Module resolution denied for "@ + specifier + ". "@ + why,
            },
        )
    }
}

/// The URL that a target parses as, or the failure. `parsed` is what the target
/// parses as.
pub open spec fn target_url(
    target: Result<Seq<char>, ModuleErrorView>,
    parsed: Result<Seq<char>, Seq<char>>,
) -> Result<Seq<char>, ModuleErrorView> {
    match target {
        Ok(_) => uri_outcome(parsed),
        Err(err) => Err(err),
    }
}

/// What is parsed for a target.
pub open spec fn target_text(target: Result<Seq<char>, ModuleErrorView>) -> Seq<char> {
    match target {
        Ok(url) => url,
        Err(_) => Seq::empty(),
    }
}

/// What came of calling the Python resolver.
#[derive(Debug)]
pub enum ResolverOutcome {
    /// The call raised.
    Raised(String),
    NoneValue,
    /// The call returned something that is no string.
    NotText(String),
    Text(String),
}

/// The URL that the resolver's answer for a specifier means, still to be parsed, or
/// the failure.
pub open spec fn resolver_answer(
    loader: LoaderView,
    specifier: Seq<char>,
    outcome: ResolverOutcome,
) -> Result<Seq<char>, ModuleErrorView> {
    match outcome {
        ResolverOutcome::Raised(e) => Err(
            ModuleErrorView {
                class: ErrorClass::Generic,
                message: "Module resolution failed for "@ + specifier + ": "@ + e@,
            },
        ),
        ResolverOutcome::NoneValue => static_or_denied(
            loader,
            specifier,
            "Resolver returned None and no static module was found."@,
        ),
        ResolverOutcome::NotText(e) => Err(
            ModuleErrorView {
                class: ErrorClass::TypeError,
                message: "Module resolver must return a string or None: "@ + e@,
            },
        ),
        ResolverOutcome::Text(text) => if text@.len() == 0 {
            static_or_denied(
                loader,
                specifier,
                "Resolver returned empty string and no static module was found."@,
            )
        } else {
            Ok(text@)
        },
    }
}

/// What resolving a specifier asks for.
#[derive(Debug)]
pub enum ResolveStep {
    /// The URL, or why the specifier is refused.
    Resolved(Result<String, ModuleError>),
    /// Call the resolver with the specifier.
    CallResolver { resolver: u64, specifier: String },
}

/// What loading a module asks for.
#[derive(Debug)]
pub enum LoadStep {
    /// The source of a static module.
    Static(String),
    /// The module may not be loaded.
    Denied(ModuleError),
    /// Call the loader with the specifier; await what it returns with these task
    /// locals.
    CallLoader { loader: u64, task_locals: Option<u64> },
}

/// What to do with what the loader returned.
#[derive(Debug)]
pub enum LoadedStep {
    /// It is the source.
    Use,
    /// Await it for the source.
    Await { task_locals: u64 },
    /// Close it: it cannot be awaited here.
    Refuse(ModuleError),
}

/// Where delegating to the Python loader failed.
#[derive(Clone, Copy, Debug, PartialEq, Eq, Structural)]
pub enum LoaderStage {
    Call,
    ImportInspect,
    CheckCoroutine,
    ExtractFlag,
    CreateFuture,
    AwaitResult,
    ExtractSource,
}

/// The text before the error of a failed stage.
pub open spec fn stage_text(stage: LoaderStage) -> Seq<char> {
    match stage {
        LoaderStage::Call => "Failed to call module loader: "@,
        LoaderStage::ImportInspect => "Failed to import inspect module: "@,
        LoaderStage::CheckCoroutine => "Failed to check if result is coroutine: "@,
        LoaderStage::ExtractFlag => "Failed to extract boolean from iscoroutine check: "@,
        LoaderStage::CreateFuture => "Failed to create async future: "@,
        LoaderStage::AwaitResult => "Module loader failed: "@,
        LoaderStage::ExtractSource => "Module loader must return a string: "@,
    }
}

/// The error for a stage that failed.
pub fn loader_error(stage: LoaderStage, err: &str) -> (error: ModuleError)
    ensures
        error@ == (ModuleErrorView {
            class: if stage == LoaderStage::ExtractSource {
                ErrorClass::TypeError
            } else {
                ErrorClass::Generic
            },
            message: stage_text(stage) + err@,
        }),
{
    let (class, text): (ErrorClass, &str) = match stage {
        LoaderStage::Call => (ErrorClass::Generic, "Failed to call module loader: "),
        LoaderStage::ImportInspect => (ErrorClass::Generic, "Failed to import inspect module: "),
        LoaderStage::CheckCoroutine => (
            ErrorClass::Generic,
            "Failed to check if result is coroutine: ",
        ),
        LoaderStage::ExtractFlag => (
            ErrorClass::Generic,
            "Failed to extract boolean from iscoroutine check: ",
        ),
        LoaderStage::CreateFuture => (ErrorClass::Generic, "Failed to create async future: "),
        LoaderStage::AwaitResult => (ErrorClass::Generic, "Module loader failed: "),
        LoaderStage::ExtractSource => (
            ErrorClass::TypeError,
            "Module loader must return a string: ",
        ),
    };
    ModuleError { class, message: join2(text, err) }
}

/// The kind of module that an import asks for.
#[derive(Debug)]
pub enum RequestedModuleType {
    /// No type was asked for.
    Unspecified,
    Json,
    Text,
    Bytes,
    Other(String),
}

/// The kind of module that is handed to the engine.
#[derive(Debug)]
pub enum ModuleType {
    JavaScript,
    Json,
    Text,
    Bytes,
    Other(String),
}

/// The kind of module that is handed over for a request.
pub fn module_type_from_request(requested: &RequestedModuleType) -> (kind: ModuleType)
    ensures
        match *requested {
            RequestedModuleType::Unspecified => kind == ModuleType::JavaScript,
            RequestedModuleType::Json => kind == ModuleType::Json,
            RequestedModuleType::Text => kind == ModuleType::Text,
            RequestedModuleType::Bytes => kind == ModuleType::Bytes,
            RequestedModuleType::Other(name) => kind == ModuleType::Other(name),
        },
{
    match requested {
        RequestedModuleType::Unspecified => ModuleType::JavaScript,
        RequestedModuleType::Json => ModuleType::Json,
        RequestedModuleType::Text => ModuleType::Text,
        RequestedModuleType::Bytes => ModuleType::Bytes,
        RequestedModuleType::Other(name) => ModuleType::Other(name.clone()),
    }
}

/// The source that was registered under `name`.
spec fn find(modules: Seq<(String, String)>, name: Seq<char>) -> Option<Seq<char>>
    decreases modules.len(),
{
    if modules.len() == 0 {
        None
    } else if modules[0].0@ == name {
        Some(modules[0].1@)
    } else {
        find(modules.drop_first(), name)
    }
}

spec fn module_map(modules: Seq<(String, String)>) -> Map<Seq<char>, Seq<char>> {
    Map::new(
        |name: Seq<char>| find(modules, name) is Some,
        |name: Seq<char>| find(modules, name)->0,
    )
}

proof fn lemma_find_at(modules: Seq<(String, String)>, name: Seq<char>, i: int)
    requires
        0 <= i < modules.len(),
        modules[i].0@ == name,
        forall|k: int| 0 <= k < i ==> (#[trigger] modules[k]).0@ != name,
    ensures
        find(modules, name) == Some(modules[i].1@),
    decreases i,
{
    if i > 0 {
        assert(modules[0].0@ != name);
        assert forall|k: int| 0 <= k < i - 1 implies (#[trigger] modules.drop_first()[k]).0@
            != name by {
            assert(modules[k + 1].0@ != name);
        }
        lemma_find_at(modules.drop_first(), name, i - 1);
    }
}

proof fn lemma_find_none(modules: Seq<(String, String)>, name: Seq<char>)
    requires
        forall|k: int| 0 <= k < modules.len() ==> (#[trigger] modules[k]).0@ != name,
    ensures
        find(modules, name) is None,
    decreases modules.len(),
{
    if modules.len() > 0 {
        assert(modules[0].0@ != name);
        assert forall|k: int| 0 <= k < modules.drop_first().len() implies (
        #[trigger] modules.drop_first()[k]).0@ != name by {
            assert(modules[k + 1].0@ != name);
        }
        lemma_find_none(modules.drop_first(), name);
    }
}

proof fn lemma_find_push(modules: Seq<(String, String)>, entry: (String, String), name: Seq<char>)
    ensures
        find(modules.push(entry), name) == match find(modules, name) {
            Some(source) => Some(source),
            None => if entry.0@ == name {
                Some(entry.1@)
            } else {
                None
            },
        },
    decreases modules.len(),
{
    if modules.len() == 0 {
        assert(modules.push(entry).drop_first() =~= modules);
        assert(find(Seq::<(String, String)>::empty(), name) is None);
        assert(modules =~= Seq::empty());
    } else {
        assert(modules.push(entry).drop_first() =~= modules.drop_first().push(entry));
        lemma_find_push(modules.drop_first(), entry, name);
    }
}

proof fn lemma_find_update(
    modules: Seq<(String, String)>,
    i: int,
    entry: (String, String),
    name: Seq<char>,
)
    requires
        0 <= i < modules.len(),
        modules[i].0@ == entry.0@,
        name != entry.0@,
    ensures
        find(modules.update(i, entry), name) == find(modules, name),
    decreases i,
{
    if i == 0 {
        assert(modules.update(i, entry).drop_first() =~= modules.drop_first());
    } else {
        assert(modules.update(i, entry).drop_first() =~= modules.drop_first().update(i - 1, entry));
        lemma_find_update(modules.drop_first(), i - 1, entry, name);
    }
}

/// Module loader that delegates resolution and loading to Python callables.
pub struct PythonModuleLoader {
    static_modules: Vec<(String, String)>,
    resolver: Option<u64>,
    loader: Option<u64>,
    task_locals: Option<u64>,
}

impl View for PythonModuleLoader {
    type V = LoaderView;

    closed spec fn view(&self) -> LoaderView {
        LoaderView {
            modules: module_map(self.static_modules@),
            resolver: self.resolver,
            loader: self.loader,
            task_locals: self.task_locals,
        }
    }
}

impl PythonModuleLoader {
    pub fn new() -> (loader: Self)
        ensures
            loader@ == (LoaderView {
                modules: Map::empty(),
                resolver: None,
                loader: None,
                task_locals: None,
            }),
    {
        let loader = PythonModuleLoader {
            static_modules: Vec::new(),
            resolver: None,
            loader: None,
            task_locals: None,
        };
        assert(loader@.modules =~= Map::empty());
        loader
    }

    /// Set a Python resolver callable for custom module resolution.
    pub fn set_resolver(&mut self, resolver: u64)
        ensures
            final(self)@ == (LoaderView { resolver: Some(resolver), ..old(self)@ }),
    {
        self.resolver = Some(resolver);
    }

    /// Set a Python loader callable for fetching module source.
    pub fn set_loader(&mut self, loader: u64)
        ensures
            final(self)@ == (LoaderView { loader: Some(loader), ..old(self)@ }),
    {
        self.loader = Some(loader);
    }

    /// Register a static module with pre-defined source; a module that has the name
    /// already is replaced.
    pub fn add_static_module(&mut self, name: String, source: String)
        ensures
            final(self)@ == (LoaderView {
                modules: old(self)@.modules.insert(name@, source@),
                ..old(self)@
            }),
    {
        let ghost before = self.static_modules@;
        let ghost entry = (name, source);
        let n: usize = self.static_modules.len();
        let mut i: usize = 0;
        while i < n
            invariant
                i <= n,
                n == self.static_modules@.len(),
                self.static_modules@ == before,
                *self == *old(self),
                before == old(self).static_modules@,
                entry == (name, source),
                forall|k: int| 0 <= k < i ==> (#[trigger] before[k]).0@ != name@,
            decreases n - i,
        {
            if str_eq(&self.static_modules[i].0, &name) {
                self.static_modules.set(i, (name, source));
                proof {
                    let after = self.static_modules@;
                    assert(after =~= before.update(i as int, entry));
                    assert forall|other: Seq<char>| #![auto]
                        find(after, other) == if other == entry.0@ {
                            Some(entry.1@)
                        } else {
                            find(before, other)
                        } by {
                        if other == entry.0@ {
                            lemma_find_at(after, other, i as int);
                        } else {
                            lemma_find_update(before, i as int, entry, other);
                        }
                    }
                    assert(module_map(after) =~= module_map(before).insert(entry.0@, entry.1@));
                }
                return ;
            }
            i = i + 1;
        }
        self.static_modules.push((name, source));
        proof {
            let after = self.static_modules@;
            assert(after =~= before.push(entry));
            lemma_find_none(before, entry.0@);
            assert forall|other: Seq<char>| #![auto]
                find(after, other) == if other == entry.0@ {
                    Some(entry.1@)
                } else {
                    find(before, other)
                } by {
                lemma_find_push(before, entry, other);
            }
            assert(module_map(after) =~= module_map(before).insert(entry.0@, entry.1@));
        }
    }

    /// Set asyncio task locals for async module loading.
    pub fn set_task_locals(&mut self, task_locals: u64)
        ensures
            final(self)@ == (LoaderView { task_locals: Some(task_locals), ..old(self)@ }),
    {
        self.task_locals = Some(task_locals);
    }

    /// Clear the asyncio task locals.
    pub fn clear_task_locals(&mut self)
        ensures
            final(self)@ == (LoaderView { task_locals: None, ..old(self)@ }),
    {
        self.task_locals = None;
    }

    /// The source of a static module.
    fn static_source(&self, name: &str) -> (source: Option<String>)
        ensures
            match source {
                Some(text) => self@.modules.contains_key(name@) && self@.modules[name@] == text@,
                None => !self@.modules.contains_key(name@),
            },
    {
        let mut i: usize = 0;
        while i < self.static_modules.len()
            invariant
                i <= self.static_modules@.len(),
                forall|k: int| 0 <= k < i ==> (#[trigger] self.static_modules@[k]).0@ != name@,
            decreases self.static_modules@.len() - i,
        {
            if str_eq(&self.static_modules[i].0, name) {
                proof {
                    lemma_find_at(self.static_modules@, name@, i as int);
                }
                return Some(self.static_modules[i].1.clone());
            }
            i = i + 1;
        }
        proof {
            lemma_find_none(self.static_modules@, name@);
        }
        None
    }

    /// The `pydeno://static/<name>` URL of a registered static module (optionally
    /// `static:`-prefixed), or the denial of the specifier.
    pub fn static_or_deny(&self, specifier: &str, why: &str) -> (target: Result<
        String,
        ModuleError,
    >)
        ensures
            url_result(target) == static_or_denied(self@, specifier@, why@),
    {
        let bare: String = match strip_prefix(specifier, "static:") {
            Some(rest) => rest,
            None => specifier.to_owned(),
        };
        match self.static_source(&bare) {
            Some(_) => Ok(join2("pydeno://static/", &bare)),
            None => {
                let mut message = join3("Module resolution denied for ", specifier, ". ");
                message.append(why);
                Err(ModuleError { class: ErrorClass::Generic, message })
            },
        }
    }

    /// Resolve via the Python resolver if set, otherwise only static modules are
    /// allowed.
    pub fn resolve(&self, specifier: &str) -> (step: ResolveStep)
        ensures
            match step {
                ResolveStep::Resolved(result) => {
                    let target = static_or_denied(
                        self@,
                        local_specifier(specifier@),
                        "Did you call add_static_module()?"@,
                    );
                    &&& self@.resolver is None
                    &&& url_result(result) == target_url(target, url_parse(target_text(target)))
                },
                ResolveStep::CallResolver { resolver, specifier: asked } => self@.resolver == Some(
                    resolver,
                ) && asked@ == local_specifier(specifier@),
            },
    {
        let local: String = match strip_prefix(specifier, "pydeno://runtime/") {
            Some(rest) => rest,
            None => specifier.to_owned(),
        };
        match self.resolver {
            None => ResolveStep::Resolved(
                match self.static_or_deny(&local, "Did you call add_static_module()?") {
                    Ok(url) => parse_url(&url),
                    Err(err) => Err(err),
                },
            ),
            Some(resolver) => ResolveStep::CallResolver { resolver, specifier: local },
        }
    }

    /// The URL that the resolver's answer for a specifier means (`None` and `""` fall
    /// back to static modules), still to be parsed, or the failure.
    pub fn resolver_target(&self, specifier: &str, outcome: ResolverOutcome) -> (target: Result<
        String,
        ModuleError,
    >)
        ensures
            url_result(target) == resolver_answer(self@, specifier@, outcome),
    {
        match outcome {
            ResolverOutcome::Raised(e) => {
                let mut message = join3("Module resolution failed for ", specifier, ": ");
                message.append(&e);
                Err(ModuleError { class: ErrorClass::Generic, message })
            },
            ResolverOutcome::NoneValue => self.static_or_deny(
                specifier,
                "Resolver returned None and no static module was found.",
            ),
            ResolverOutcome::NotText(e) => Err(
                ModuleError {
                    class: ErrorClass::TypeError,
                    message: join2("Module resolver must return a string or None: ", &e),
                },
            ),
            ResolverOutcome::Text(text) => if text.as_str().is_empty() {
                self.static_or_deny(
                    specifier,
                    "Resolver returned empty string and no static module was found.",
                )
            } else {
                Ok(text)
            },
        }
    }

    /// What the resolver's answer for a specifier amounts to.
    pub fn resolve_with(&self, specifier: &str, outcome: ResolverOutcome) -> (result: Result<
        String,
        ModuleError,
    >)
        ensures
            ({
                let target = resolver_answer(self@, specifier@, outcome);
                url_result(result) == target_url(target, url_parse(target_text(target)))
            }),
    {
        match self.resolver_target(specifier, outcome) {
            Ok(url) => parse_url(&url),
            Err(err) => Err(err),
        }
    }

    /// Load static modules from the registry, else via the Python loader; error if
    /// no loader is set.
    pub fn load(&self, specifier: &str) -> (step: LoadStep)
        ensures
            ({
                let name = specifier@.skip("pydeno://static/"@.len() as int);
                let is_static = has_prefix(specifier@, "pydeno://static/"@)
                    && self@.modules.contains_key(name);
                match step {
                    LoadStep::Static(source) => is_static && source@ == self@.modules[name],
                    LoadStep::Denied(err) => !is_static && self@.loader is None && err@ == (
                    ModuleErrorView {
                        class: ErrorClass::Generic,
                        message: "Module loading denied for "@ + specifier@
                            + ". Did you call set_module_loader()?"@,
                    }),
                    LoadStep::CallLoader { loader, task_locals } => !is_static && self@.loader
                        == Some(loader) && task_locals == self@.task_locals,
                }
            }),
    {
        if let Some(name) = strip_prefix(specifier, "pydeno://static/") {
            if let Some(source) = self.static_source(&name) {
                return LoadStep::Static(source);
            }
        }
        match self.loader {
            None => LoadStep::Denied(
                ModuleError {
                    class: ErrorClass::Generic,
                    message: join3(
                        "Module loading denied for ",
                        specifier,
                        ". Did you call set_module_loader()?",
                    ),
                },
            ),
            Some(loader) => LoadStep::CallLoader { loader, task_locals: self.task_locals },
        }
    }
}

/// What to do with what the loader returned: a coroutine needs task locals to be
/// awaited with.
pub fn loaded(task_locals: Option<u64>, is_coroutine: bool) -> (step: LoadedStep)
    ensures
        match step {
            LoadedStep::Use => !is_coroutine,
            LoadedStep::Await { task_locals: locals } => is_coroutine && task_locals == Some(
                locals,
            ),
            LoadedStep::Refuse(err) => is_coroutine && task_locals is None && err@ == (
            ModuleErrorView {
                class: ErrorClass::TypeError,
                message:
                    "An async module loader cannot be used with a synchronous evaluation (eval_module). Use eval_module_async() instead."@,
            }),
        },
{
    if !is_coroutine {
        return LoadedStep::Use;
    }
    match task_locals {
        Some(locals) => LoadedStep::Await { task_locals: locals },
        None => LoadedStep::Refuse(
            ModuleError {
                class: ErrorClass::TypeError,
                message:
                    "An async module loader cannot be used with a synchronous evaluation (eval_module). Use eval_module_async() instead.".to_owned(),
            },
        ),
    }
}

/// A module that is registered is resolved to its static URL, by its name and with
/// the `static:` prefix alike, also where the resolver leaves it open; and loading
/// that URL finds its source.
pub proof fn law_static_modules_resolve(loader: LoaderView, name: Seq<char>, why: Seq<char>)
    requires
        loader.modules.contains_key(name),
        !has_prefix(name, "static:"@),
    ensures
        static_or_denied(loader, name, why) == Ok::<_, ModuleErrorView>(
            "pydeno://static/"@ + name,
        ),
        static_or_denied(loader, "static:"@ + name, why) == Ok::<_, ModuleErrorView>(
            "pydeno://static/"@ + name,
        ),
        resolver_answer(loader, name, ResolverOutcome::NoneValue) == Ok::<_, ModuleErrorView>(
            "pydeno://static/"@ + name,
        ),
        has_prefix("pydeno://static/"@ + name, "pydeno://static/"@),
        ("pydeno://static/"@ + name).skip("pydeno://static/"@.len() as int) == name,
{
    let prefixed = "static:"@ + name;
    assert(prefixed.subrange(0, "static:"@.len() as int) =~= "static:"@);
    assert(prefixed.skip("static:"@.len() as int) =~= name);
    let url = "pydeno://static/"@ + name;
    assert(url.subrange(0, "pydeno://static/"@.len() as int) =~= "pydeno://static/"@);
    assert(url.skip("pydeno://static/"@.len() as int) =~= name);
}

/// A module that was not registered is denied, unless the resolver names a URL for it.
pub proof fn law_unknown_modules_are_denied(
    loader: LoaderView,
    specifier: Seq<char>,
    why: Seq<char>,
    outcome: ResolverOutcome,
)
    requires
        !loader.modules.contains_key(static_name(specifier)),
    ensures
        static_or_denied(loader, specifier, why) is Err,
        resolver_answer(loader, specifier, outcome) is Ok ==> outcome is Text,
{
}

} // verus!
