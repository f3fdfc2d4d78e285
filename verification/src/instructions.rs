pub mod close_registration;
pub mod conclude_election;
pub mod init_election;
pub mod register_voter;
pub mod update_root;
pub mod vote;
