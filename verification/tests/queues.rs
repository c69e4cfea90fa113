use amp_mate::controller::protocol::{RotelCommand, RotelQuery};
use amp_mate::controller::session::QUEUE_DEPTH;
use std::future::Future;
use std::task::{Context, Poll, Waker};
use tokio::sync::mpsc::channel;

#[test]
fn ninth_command_waits_until_one_is_taken() {
    let (sender, mut receiver) = channel::<RotelCommand>(QUEUE_DEPTH);
    for _ in 0..QUEUE_DEPTH {
        assert!(sender.try_send(RotelCommand::Get(RotelQuery::Volume)).is_ok());
    }
    assert!(sender.try_send(RotelCommand::Get(RotelQuery::Mute)).is_err());

    let mut context = Context::from_waker(Waker::noop());
    let mut ninth = Box::pin(sender.send(RotelCommand::Get(RotelQuery::Mute)));
    assert!(ninth.as_mut().poll(&mut context).is_pending());
    assert!(ninth.as_mut().poll(&mut context).is_pending());

    assert_eq!(receiver.try_recv().ok(), Some(RotelCommand::Get(RotelQuery::Volume)));
    assert_eq!(ninth.as_mut().poll(&mut context), Poll::Ready(Ok(())));
}
