//! A demonstration ticker: it greets whatever was published on its topic,
//! or seeds the conversation when nothing was.

use vstd::prelude::*;

use crate::pubsub::{PublishTy, SubData, SubOrigin, SubscribeTy, TraitTopic};
use crate::ticker::{GenericTickerContext, Ticker};

verus! {

/// The trait family the greeting topic belongs to.
pub const HELLO_FAMILY: u32 = 1;

/// The greeting topic's number within its family.
pub const HELLO_TOPIC: u32 = 1;

/// A greeting payload: the message bytes as published.
#[derive(Debug)]
pub struct HelloWorld {
    pub msg: Vec<u8>,
}

impl View for HelloWorld {
    type V = Seq<u8>;

    open spec fn view(&self) -> Seq<u8> {
        self.msg@
    }
}

impl SubscribeTy for HelloWorld {
    open spec fn topic_spec() -> TraitTopic {
        TraitTopic { family: HELLO_FAMILY, topic: HELLO_TOPIC }
    }

    open spec fn accepts_spec(data: Seq<u8>) -> bool {
        true
    }

    open spec fn parsed_view(data: Seq<u8>) -> Seq<u8> {
        data
    }

    fn trait_topic() -> TraitTopic {
        TraitTopic { family: HELLO_FAMILY, topic: HELLO_TOPIC }
    }

    fn deserialize(data: &[u8]) -> Result<HelloWorld, String> {
        Ok(HelloWorld { msg: vstd::slice::slice_to_vec(data) })
    }
}

impl PublishTy for HelloWorld {
    open spec fn topic_spec() -> TraitTopic {
        TraitTopic { family: HELLO_FAMILY, topic: HELLO_TOPIC }
    }

    open spec fn serial_spec(v: Seq<u8>) -> Seq<u8> {
        v
    }

    fn serialize(self) -> Vec<u8> {
        self.msg
    }
}

/// The bytes of the ASCII text `Hello: `.
fn greeting_prefix() -> Vec<u8> {
    vec![72u8, 101u8, 108u8, 108u8, 111u8, 58u8, 32u8]
}

/// The bytes of the ASCII text `World`.
fn world_bytes() -> Vec<u8> {
    vec![87u8, 111u8, 114u8, 108u8, 100u8]
}

/// The demonstration ticker.
pub struct HelloWorldTicker;

impl<C: GenericTickerContext> Ticker<C> for HelloWorldTicker {
    open spec fn interval_spec(&self) -> u64 {
        1
    }

    fn interval(&self) -> u64 {
        1
    }

    fn init(&mut self, ctx: &mut C) {
        let sub = SubData::new::<HelloWorld>(SubOrigin::Unspecified);
        ctx.pubsub().subscribe(sub);
    }

    fn update(&mut self, ctx: &mut C) {
        let sub = SubData::new::<HelloWorld>(SubOrigin::Unspecified);
        let ps = ctx.pubsub();
        match ps.pop::<HelloWorld>(sub) {
            Some(hello) => {
                let mut msg = greeting_prefix();
                let mut i: usize = 0;
                let n = hello.msg.len();
                while i < n
                    invariant
                        n == hello.msg@.len(),
                        0 <= i <= n,
                    decreases n - i,
                {
                    msg.push(hello.msg[i]);
                    i = i + 1;
                }
                ps.publish(HelloWorld { msg });
            }
            None => {
                ps.publish(HelloWorld { msg: world_bytes() });
            }
        }
    }
}

} // verus!
