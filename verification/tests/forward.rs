use std::cell::RefCell;
use std::rc::Rc;
use zplugin_dds::coders::{IdentityCoder, Writer};
use zplugin_dds::forward::{forward_samples, payloads_to_forward, Sample};

struct Sink {
    seen: Rc<RefCell<Vec<Vec<u8>>>>,
}

impl Writer for Sink {
    fn write(&self, buf: &[u8]) {
        self.seen.borrow_mut().push(buf.to_vec());
    }
}

fn sample(valid: bool, payload: &[u8]) -> Sample {
    Sample { valid_data: valid, payload: payload.to_vec() }
}

#[test]
fn only_samples_with_data_are_forwarded() {
    let samples = vec![sample(true, &[1]), sample(false, &[2]), sample(true, &[]), sample(true, &[3, 4])];
    assert_eq!(payloads_to_forward(samples), vec![vec![1u8], vec![], vec![3, 4]]);
    assert_eq!(payloads_to_forward(vec![]), Vec::<Vec<u8>>::new());
    assert_eq!(payloads_to_forward(vec![sample(false, &[1])]), Vec::<Vec<u8>>::new());
}

#[test]
fn no_sample_that_is_handed_over_is_lost() {
    let samples: Vec<Sample> = (0..50u8).map(|i| sample(i % 2 == 0, &[i])).collect();
    let expected: Vec<Vec<u8>> = (0..50u8).filter(|i| i % 2 == 0).map(|i| vec![i]).collect();
    assert_eq!(payloads_to_forward(samples), expected);
}

#[test]
fn many_payloads_reach_the_writer_in_order_and_unchanged() {
    let seen = Rc::new(RefCell::new(Vec::new()));
    let coder = IdentityCoder::new(Sink { seen: seen.clone() });
    let mut expected: Vec<Vec<u8>> = Vec::new();
    for callback in 0..20u32 {
        let taken: Vec<Sample> = (0..17u32)
            .map(|i| {
                let payload: Vec<u8> = (0..(callback * 17 + i)).map(|b| (b % 251) as u8).collect();
                if i % 5 != 4 {
                    expected.push(payload.clone());
                }
                Sample { valid_data: i % 5 != 4, payload }
            })
            .collect();
        forward_samples(&coder, taken);
    }
    assert_eq!(expected.len(), 20 * 14);
    assert_eq!(*seen.borrow(), expected);
}

#[test]
fn forward_samples_feeds_the_coder_in_order() {
    let seen = Rc::new(RefCell::new(Vec::new()));
    let coder = IdentityCoder::new(Sink { seen: seen.clone() });
    let count = forward_samples(&coder, vec![sample(true, &[1, 2]), sample(false, &[9]), sample(true, &[3])]);
    assert_eq!(count, 2);
    assert_eq!(*seen.borrow(), vec![vec![1u8, 2], vec![3]]);
}

#[test]
fn forward_samples_takes_a_boxed_coder() {
    let seen = Rc::new(RefCell::new(Vec::new()));
    let coder: Box<dyn zplugin_dds::coders::Coder> = Box::new(IdentityCoder::new(Sink { seen: seen.clone() }));
    assert_eq!(forward_samples(&*coder, vec![sample(false, &[1]), sample(true, &[2])]), 1);
    assert_eq!(*seen.borrow(), vec![vec![2u8]]);
}
