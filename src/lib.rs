//! The state and the rules of a TodoMVC application: an ordered collection of
//! todo items, the draft and edit session around it, the filter that the URL
//! fragment selects, the update step that applies one message to the model,
//! and the plain description of what the page shows.
pub mod text;
pub mod todos;
pub mod filter;
pub mod model;
pub mod view;
