//! Setting up a new project: which files are written.

use vstd::prelude::*;

verus! {

/// What happens to one file of a new project.
#[derive(Clone, Copy, Debug, PartialEq, Eq, Structural)]
pub enum FileStep {
    /// The file exists and is left as it is.
    Keep,
    /// The file is written with its initial content.
    Create,
}

/// What `init` does: the step for the configuration file, and the step for
/// the catalog file unless it is left out of consideration.
#[derive(Clone, Copy, Debug, PartialEq, Eq, Structural)]
pub struct InitPlan {
    pub config: FileStep,
    pub products: Option<FileStep>,
}

/// The step for a file: it is written only if it does not exist yet.
pub open spec fn step_for(exists: bool) -> FileStep {
    if exists {
        FileStep::Keep
    } else {
        FileStep::Create
    }
}

/// Plans the set-up of a project. The configuration file is always looked
/// at; the catalog file only when the set-up is not minimal. A file that
/// exists is never overwritten.
pub fn run(minimal: bool, config_exists: bool, products_exists: bool) -> (plan: InitPlan)
    ensures
        plan.config == step_for(config_exists),
        plan.products == if minimal {
            None
        } else {
            Some(step_for(products_exists))
        },
{
    let config = if config_exists {
        FileStep::Keep
    } else {
        FileStep::Create
    };
    let products = if minimal {
        None
    } else if products_exists {
        Some(FileStep::Keep)
    } else {
        Some(FileStep::Create)
    };
    InitPlan { config, products }
}

} // verus!
