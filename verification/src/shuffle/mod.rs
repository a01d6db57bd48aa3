pub mod certificate;
pub mod period;
pub mod pick;
pub mod polynomial;
pub mod xorshift;
