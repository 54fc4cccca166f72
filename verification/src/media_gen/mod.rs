pub mod publication;
pub mod publish;
pub mod python_client;
