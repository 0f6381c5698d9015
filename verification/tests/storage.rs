use ephemera::block::types::block::Block;
use ephemera::crypto::PeerId;
use ephemera::database::compound_answer;
use ephemera::http::{optional_query_status, QueryStatus};

#[test]
fn compound_store_answers() {
    let block = Block::new_genesis_block(PeerId::random());
    let both = compound_answer(Ok(Some(block.clone())), Ok(Some(block.clone()))).unwrap();
    assert_eq!(both, Some(block.clone()));
    assert!(compound_answer::<Block>(Ok(None), Ok(None)).unwrap().is_none());
    let first_fails = compound_answer::<Block>(Err(anyhow::Error::msg("first")), Err(anyhow::Error::msg("second")));
    assert_eq!(first_fails.unwrap_err().to_string(), "first");
    let second_fails = compound_answer(Ok(Some(block)), Err(anyhow::Error::msg("second")));
    assert_eq!(second_fails.unwrap_err().to_string(), "second");
}

#[test]
fn query_status_reading() {
    assert_eq!(optional_query_status(200), QueryStatus::Found);
    assert_eq!(optional_query_status(204), QueryStatus::Found);
    assert_eq!(optional_query_status(404), QueryStatus::NotFound);
    assert_eq!(optional_query_status(500), QueryStatus::Unexpected);
    assert_eq!(optional_query_status(302), QueryStatus::Unexpected);
}
