//! Configuration-driven prompt management: loading prompt configurations and
//! rendering them into system prompts.

pub mod loader;
pub mod renderer;

use vstd::prelude::*;
use crate::config::prompt_schema::{config_view, ConfigView, PromptConfig};
use crate::config::prompt::loader::{
    builtin_view, minimal_view, not_found_message, system_view, worker_view, PromptLoader,
    PromptLoaderError,
};
use crate::text::opt_view;
use crate::config::prompt::renderer::{lemma_rendered_by_view, rendered, PromptRenderer, RenderContext, ToolInfo};

verus! {

/// Loading and rendering of prompt configurations.
#[derive(Debug)]
pub struct PromptManager {
    loader: PromptLoader,
}

impl PromptManager {
    /// The directory prompt files are read from.
    pub closed spec fn prompts_dir(&self) -> std::path::PathBuf {
        self.loader.prompts_dir()
    }

    /// Well-formedness of the loader's cache.
    pub closed spec fn wf(&self) -> bool {
        self.loader.wf()
    }

    /// The summary of the configuration cached under `name`.
    pub closed spec fn cached(&self, name: Seq<char>) -> Option<ConfigView> {
        self.loader.cached(name)
    }

    /// A manager for the default prompts directory.
    pub fn new() -> (r: Self)
        ensures
            r.wf(),
            forall|n: Seq<char>| r.cached(n) is None,
    {
        PromptManager { loader: PromptLoader::default() }
    }

    /// A manager for a given prompts directory.
    pub fn with_config_dir(config_dir: std::path::PathBuf) -> (r: Self)
        ensures
            r.wf(),
            r.prompts_dir() == config_dir,
            forall|n: Seq<char>| r.cached(n) is None,
    {
        PromptManager { loader: PromptLoader::new(config_dir) }
    }

    /// Load a configuration by name (the cached one, else the built-in one).
    pub fn load(&mut self, name: &str) -> (r: Result<PromptConfig, PromptLoaderError>)
        requires
            old(self).wf(),
        ensures
            final(self).wf(),
            r matches Ok(c) ==> final(self).cached(name@) == Some(config_view(c)),
            match old(self).cached(name@) {
                Some(s) => r matches Ok(c) && config_view(c) == s,
                None => match builtin_view(name@) {
                    Some(s) => r matches Ok(c) && config_view(c) == s && final(self).cached(
                        name@,
                    ) == Some(s),
                    None => r matches Err(PromptLoaderError::NotFound(m)) && m@ == not_found_message(name@) && forall|n: Seq<char>|
                        final(self).cached(n) == old(self).cached(n),
                },
            },
    {
        self.loader.load(name)
    }

    /// Load a configuration given what reading its file gave (`None`: no file).
    pub fn load_with_file(
        &mut self,
        name: &str,
        from_file: Option<Result<PromptConfig, PromptLoaderError>>,
    ) -> (r: Result<PromptConfig, PromptLoaderError>)
        requires
            old(self).wf(),
        ensures
            final(self).wf(),
            r matches Ok(c) ==> final(self).cached(name@) == Some(config_view(c)),
            forall|n: Seq<char>| n != name@ ==> final(self).cached(n) == old(self).cached(n),
            old(self).cached(name@) matches Some(s) ==> (r matches Ok(c) && config_view(c)
                == s),
            old(self).cached(name@) is None ==> match from_file {
                Some(Err(e)) => r == Err::<PromptConfig, PromptLoaderError>(e),
                Some(Ok(c)) => r matches Ok(d) && config_view(d) == config_view(c),
                None => match builtin_view(name@) {
                    Some(s) => r matches Ok(d) && config_view(d) == s,
                    None => r matches Err(PromptLoaderError::NotFound(m)) && m@ == not_found_message(name@),
                },
            },
    {
        self.loader.load_with_file(name, from_file)
    }

    /// Render a configuration to a string.
    pub fn render(&self, config: &PromptConfig, ctx: &RenderContext) -> (r: String)
        requires
            ctx.variables.wf(),
        ensures
            r@ == rendered(*config, *ctx),
    {
        PromptRenderer::render(config, ctx)
    }

    /// Load and render a configuration in one step.
    pub fn load_and_render(&mut self, name: &str, ctx: &RenderContext) -> (r: Result<
        String,
        PromptLoaderError,
    >)
        requires
            old(self).wf(),
            ctx.variables.wf(),
        ensures
            final(self).wf(),
            (old(self).cached(name@) is Some || builtin_view(name@) is Some) <==> r is Ok,
            r matches Ok(t) ==> exists|c: PromptConfig|
                #[trigger] rendered(c, *ctx) == t@ && final(self).cached(name@) == Some(config_view(c))
                    && match old(self).cached(name@) {
                    Some(v) => config_view(c) == v,
                    None => builtin_view(name@) == Some(config_view(c)),
                },
    {
        let config = self.load(name)?;
        let t = self.render(&config, ctx);
        assert(rendered(config, *ctx) == t@);
        Ok(t)
    }

    /// Reload a configuration (its cache entry is dropped first).
    pub fn reload(&mut self, name: &str) -> (r: Result<PromptConfig, PromptLoaderError>)
        requires
            old(self).wf(),
        ensures
            final(self).wf(),
            forall|n: Seq<char>| n != name@ ==> final(self).cached(n) == old(self).cached(n),
            r matches Ok(d) ==> final(self).cached(name@) == Some(config_view(d)),
            r is Err ==> final(self).cached(name@) is None,
            match builtin_view(name@) {
                Some(s) => r matches Ok(d) && config_view(d) == s,
                None => r matches Err(PromptLoaderError::NotFound(m)) && m@ == not_found_message(name@),
            },
    {
        self.loader.reload(name)
    }

    /// Clear the cache.
    pub fn clear_cache(&mut self)
        ensures
            final(self).wf(),
            forall|n: Seq<char>| final(self).cached(n) is None,
    {
        self.loader.clear_cache();
    }

    /// The loadable names known without reading the directory (the built-in ones).
    pub fn list_available(&self) -> (r: Vec<String>)
        ensures
            crate::text::views(r@) == crate::config::prompt::loader::builtin_names(),
    {
        self.loader.list_available()
    }

    /// The default configurations missing from the prompts directory, given
    /// the stems of its files: see `PromptLoader::ensure_defaults`.
    pub fn ensure_defaults(&self, present: &Vec<String>) -> (r: Vec<(String, PromptConfig)>)
        ensures
            r@.len() == crate::config::prompt::loader::missing_defaults(crate::text::views(present@)).len(),
            forall|i: int|
                0 <= i < r@.len() ==> {
                    &&& #[trigger] r@[i].0@ == crate::config::prompt::loader::missing_defaults(
                        crate::text::views(present@),
                    )[i]
                    &&& builtin_view(r@[i].0@) == Some(config_view(r@[i].1))
                },
    {
        self.loader.ensure_defaults(present)
    }

    /// The prompts directory.
    pub fn config_dir(&self) -> &std::path::PathBuf {
        self.loader.config_dir()
    }
}

impl Default for PromptManager {
    fn default() -> (r: Self)
        ensures
            r.wf(),
            forall|n: Seq<char>| r.cached(n) is None,
    {
        PromptManager::new()
    }
}

/// A context for rendering a built-in prompt: these tools, the working
/// directory and mode when given, and nothing else.
pub open spec fn prompt_context(
    ctx: RenderContext,
    tools: Vec<ToolInfo>,
    working_directory: Option<Seq<char>>,
    mode: Option<Seq<char>>,
) -> bool {
    &&& ctx.tools == Some(tools)
    &&& opt_view(ctx.working_directory) == working_directory
    &&& opt_view(ctx.mode) == mode
    &&& ctx.datetime is None
    &&& ctx.git_branch is None
    &&& ctx.user_instructions is None
    &&& ctx.scratchpad is None
    &&& ctx.variables.wf()
    &&& ctx.variables@.len() == 0
}

/// The built-in configuration `view` rendered in a context, as the text `t`:
/// some configuration with that full view renders to `t`.
pub open spec fn renders_builtin(view: ConfigView, ctx: RenderContext, t: Seq<char>) -> bool {
    exists|c: PromptConfig| config_view(c) == view && #[trigger] rendered(c, ctx) == t
}

/// The rendering of a built-in configuration is one text: any two
/// configurations with the built-in view render alike in a context.
pub proof fn lemma_builtin_rendering_unique(view: ConfigView, ctx: RenderContext, t1: Seq<char>, t2: Seq<char>)
    requires
        renders_builtin(view, ctx, t1),
        renders_builtin(view, ctx, t2),
    ensures
        t1 == t2,
{
    let c1 = choose|c: PromptConfig| config_view(c) == view && #[trigger] rendered(c, ctx) == t1;
    let c2 = choose|c: PromptConfig| config_view(c) == view && #[trigger] rendered(c, ctx) == t2;
    lemma_rendered_by_view(c1, c2, ctx);
}

fn render_builtin(name: &str, ctx: &RenderContext) -> (r: Result<String, PromptLoaderError>)
    requires
        builtin_view(name@) is Some,
        ctx.variables.wf(),
    ensures
        r matches Ok(t) && renders_builtin(builtin_view(name@)->0, *ctx, t@),
{
    let mut manager = PromptManager::default();
    let r = manager.load_and_render(name, ctx);
    proof {
        if r is Ok {
            let t = r->Ok_0;
            let c = choose|c: PromptConfig|
                #[trigger] rendered(c, *ctx) == t@ && manager.cached(name@) == Some(config_view(c))
                    && builtin_view(name@) == Some(config_view(c));
            assert(config_view(c) == builtin_view(name@)->0);
        }
    }
    r
}

/// Render the built-in `system` prompt with these tools and, when given, the
/// working directory and mode.
pub fn render_system_prompt(
    tools: Vec<ToolInfo>,
    working_directory: Option<String>,
    mode: Option<String>,
) -> (r: Result<String, PromptLoaderError>)
    ensures
        r matches Ok(t) && exists|ctx: RenderContext|
            prompt_context(ctx, tools, opt_view(working_directory), opt_view(mode))
                && #[trigger] renders_builtin(system_view(), ctx, t@),
{
    let mut ctx = RenderContext::new().with_tools(tools);
    if let Some(dir) = working_directory {
        ctx = ctx.with_working_directory(dir.as_str());
    }
    if let Some(m) = mode {
        ctx = ctx.with_mode(m.as_str());
    }
    proof {
        reveal_strlit("system");
    }
    let r = render_builtin("system", &ctx);
    proof {
        assert(prompt_context(ctx, tools, opt_view(working_directory), opt_view(mode)));
    }
    r
}

/// Render the built-in `minimal` prompt with these tools.
pub fn render_minimal_prompt(tools: Vec<ToolInfo>) -> (r: Result<String, PromptLoaderError>)
    ensures
        r matches Ok(t) && exists|ctx: RenderContext|
            prompt_context(ctx, tools, None, None) && #[trigger] renders_builtin(minimal_view(), ctx, t@),
{
    let ctx = RenderContext::new().with_tools(tools);
    proof {
        reveal_strlit("system");
        reveal_strlit("minimal");
        assert("minimal"@.len() == 7 && "system"@.len() == 6);
        assert("minimal"@ != "system"@);
        assert(builtin_view("minimal"@) == Some(minimal_view()));
    }
    let r = render_builtin("minimal", &ctx);
    proof {
        assert(prompt_context(ctx, tools, None, None));
    }
    r
}

/// Render the built-in `worker` prompt with these tools.
pub fn render_worker_prompt(tools: Vec<ToolInfo>) -> (r: Result<String, PromptLoaderError>)
    ensures
        r matches Ok(t) && exists|ctx: RenderContext|
            prompt_context(ctx, tools, None, None) && #[trigger] renders_builtin(worker_view(), ctx, t@),
{
    let ctx = RenderContext::new().with_tools(tools);
    proof {
        reveal_strlit("system");
        reveal_strlit("minimal");
        reveal_strlit("worker");
        assert("worker"@.len() == 6 && "system"@.len() == 6 && "minimal"@.len() == 7);
        assert("worker"@[0] != "system"@[0]);
        assert("worker"@ != "system"@ && "worker"@ != "minimal"@);
        assert(builtin_view("worker"@) == Some(worker_view()));
    }
    let r = render_builtin("worker", &ctx);
    proof {
        assert(prompt_context(ctx, tools, None, None));
    }
    r
}

} // verus!
