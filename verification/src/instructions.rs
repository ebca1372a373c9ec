pub mod close_program_wsol;
pub mod create_program_wsol_idempotent;
pub mod flow;
pub mod swap_sol_for_tokens;
pub mod swap_tokens_for_sol;
pub mod swap_tokens_for_tokens;
pub mod take_integrator_fee;
