//! The linear pipeline of one invocation:
//! resolve context, read template, render, write output — with any step's
//! failure terminal. The context is resolved strictly before the template is
//! read, so that a context error is reported before any bytes are consumed
//! from standard input.

use vstd::prelude::*;
use crate::config::ResolvedConfig;
use crate::context::Context;
use crate::errors::Error;
use crate::render::render;

verus! {

/// The stages of one invocation, in their fixed order.
#[derive(Debug, PartialEq)]
pub enum Stage {
    ResolveContext,
    ReadTemplate,
    Render,
    WriteOutput,
    Done,
    Failed,
}

/// One invocation's progress. The reads themselves happen outside the
/// library; the pipeline accepts their results and keeps the stages in
/// order.
pub struct Pipeline {
    pub config: ResolvedConfig,
    pub stage: Stage,
    pub context: Option<Context>,
    pub template: Option<String>,
    pub output: Option<String>,
    pub error: Option<Error>,
}

impl Pipeline {
    /// The ordering invariant of the pipeline: a stage is reached only with
    /// everything the earlier stages produce in hand — in particular, the
    /// template is never accepted before the context has been resolved.
    pub open spec fn wf(self) -> bool {
        &&& (self.stage is ReadTemplate || self.stage is Render || self.stage is WriteOutput
            || self.stage is Done) ==> self.context is Some
        &&& (self.stage is Render || self.stage is WriteOutput || self.stage is Done)
            ==> self.template is Some
        &&& (self.stage is WriteOutput || self.stage is Done) ==> self.output is Some
        &&& self.stage is Failed ==> self.error is Some
    }

    /// Starts an invocation at context resolution.
    pub fn new(config: ResolvedConfig) -> (p: Pipeline)
        ensures
            p.wf(),
            p.stage is ResolveContext,
            p.config == config,
            p.context is None,
            p.template is None,
            p.output is None,
            p.error is None,
    {
        Pipeline {
            config,
            stage: Stage::ResolveContext,
            context: None,
            template: None,
            output: None,
            error: None,
        }
    }

    /// Accepts the resolved context and moves on to reading the template.
    pub fn context_resolved(&mut self, context: Context)
        requires
            old(self).wf(),
            old(self).stage is ResolveContext,
        ensures
            final(self).wf(),
            final(self).stage is ReadTemplate,
            final(self).context matches Some(c) && c@ == context@,
            final(self).config == old(self).config,
            final(self).template == old(self).template,
    {
        self.context = Some(context);
        self.stage = Stage::ReadTemplate;
    }

    /// Accepts the template text and moves on to rendering.
    pub fn template_read(&mut self, template: String)
        requires
            old(self).wf(),
            old(self).stage is ReadTemplate,
        ensures
            final(self).wf(),
            final(self).stage is Render,
            final(self).template == Some(template),
            final(self).config == old(self).config,
            final(self).context == old(self).context,
    {
        self.template = Some(template);
        self.stage = Stage::Render;
    }

    /// Renders the template against the resolved context. On success the
    /// output is ready to be written; on a render error the invocation fails.
    pub fn rendered(&mut self)
        requires
            old(self).wf(),
            old(self).stage is Render,
        ensures
            final(self).wf(),
            final(self).stage is WriteOutput || final(self).stage is Failed,
            final(self).stage is Failed ==> (final(self).error matches Some(e) && (e matches
            Error::TeraApply { .. })),
            final(self).config == old(self).config,
    {
        let template = match &self.template {
            Some(t) => t,
            None => {
                proof {
                    assert(false);
                }
                return ;
            },
        };
        let context = match &self.context {
            Some(c) => c,
            None => {
                proof {
                    assert(false);
                }
                return ;
            },
        };
        match render(template.as_str(), context, self.config.autoescape) {
            Ok(output) => {
                self.output = Some(output);
                self.stage = Stage::WriteOutput;
            },
            Err(e) => {
                self.error = Some(e);
                self.stage = Stage::Failed;
            },
        }
    }

    /// Hands the rendered text out to be written, ending the invocation.
    pub fn take_output(&mut self) -> (r: String)
        requires
            old(self).wf(),
            old(self).stage is WriteOutput,
        ensures
            final(self).wf(),
            final(self).stage is Done,
            old(self).output == Some(r),
    {
        let out = match &self.output {
            Some(o) => o.clone(),
            None => {
                proof {
                    assert(false);
                }
                String::new()
            },
        };
        self.stage = Stage::Done;
        out
    }

    /// Records a terminal failure of the current step.
    pub fn failed(&mut self, error: Error)
        requires
            old(self).wf(),
            !(old(self).stage is Done),
            !(old(self).stage is Failed),
        ensures
            final(self).wf(),
            final(self).stage is Failed,
            final(self).error == Some(error),
            final(self).config == old(self).config,
    {
        self.error = Some(error);
        self.stage = Stage::Failed;
    }
}

} // verus!
