pub mod setup_connection;
