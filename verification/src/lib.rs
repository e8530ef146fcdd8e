//! Client-side logic of the machine-learning platform frontend: the data
//! model that the backend serves, the decisions the user interface takes on
//! each user action or server reply, and the text it shows.

pub mod algorithm_selector;
pub mod api;
pub mod banner;
pub mod app_state;
pub mod model_details;
pub mod model_list;
pub mod models;
pub mod param_values;
pub mod search;
pub mod text;
pub mod train_form;
pub mod training;
