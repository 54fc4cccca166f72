pub mod system_settings;
pub mod assignments;
pub mod recommended_projects;
pub mod media_generations;
pub mod media_files;
pub mod student_progress;
pub mod topics;
pub mod users;
pub mod personal_access_tokens;
pub mod activity_logs;
pub mod contents;
pub mod gallery;
pub mod marketplace_tasks;
