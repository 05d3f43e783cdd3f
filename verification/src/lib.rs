//! Engine for a desktop utility that lists the "recently opened" folders of
//! locally installed code-editor variants: locating installations, reading and
//! parsing each variant's history from its settings store, classifying entries
//! by remote-connection kind, and applying a filter and pin state over the list.

pub mod filter;
pub mod history;
pub mod text;
pub mod toolbox;
pub mod vscode;

pub use toolbox::Toolbox;

pub use filter::FilterOptions;
pub use filter::Remote;

pub use vscode::Entry;
pub use vscode::EntryList;
pub use vscode::VscodeEntries;
pub use vscode::VscodeInstances;
pub use vscode::Workspace;
