use crate::model::emoji::Emoji;
use vstd::prelude::*;

verus! {

#[derive(Debug, Clone)]
pub struct Reaction {
    pub count: i32,
    pub me: bool,
    pub emoji: Emoji,
}

} // verus!
