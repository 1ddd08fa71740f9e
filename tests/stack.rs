use chip8::stack::Stack;

#[test]
fn test_push() {
    let mut stack = Stack::new();
    stack.push(1);
    stack.push(2);
    stack.push(3);
    assert_eq!(stack.size(), 3);
}

#[test]
fn test_pop() {
    let mut stack = Stack::new();
    stack.push(10);
    stack.push(20);
    stack.push(30);

    assert_eq!(stack.pop(), Some(30));
    assert_eq!(stack.pop(), Some(20));
    assert_eq!(stack.pop(), Some(10));
    assert_eq!(stack.pop(), None);
}

#[test]
fn test_peek() {
    let mut stack = Stack::new();
    stack.push(100);
    stack.push(200);
    stack.push(300);

    assert_eq!(stack.peek(), Some(&300));
    stack.pop();
    assert_eq!(stack.peek(), Some(&200));
    stack.pop();
    assert_eq!(stack.peek(), Some(&100));
    stack.pop();
    assert_eq!(stack.peek(), None);
}

#[test]
fn test_is_empty() {
    let mut stack = Stack::new();
    assert!(stack.is_empty());

    stack.push(42);
    assert!(!stack.is_empty());

    stack.pop();
    assert!(stack.is_empty());
}

#[test]
fn test_size() {
    let mut stack = Stack::new();
    assert_eq!(stack.size(), 0);

    stack.push(1);
    assert_eq!(stack.size(), 1);

    stack.push(2);
    stack.push(3);
    assert_eq!(stack.size(), 3);

    stack.pop();
    assert_eq!(stack.size(), 2);

    stack.pop();
    stack.pop();
    assert_eq!(stack.size(), 0);
}

#[test]
fn pop_from_empty_stack_leaves_it_empty() {
    let mut stack: Stack<u16> = Stack::new();
    assert_eq!(stack.pop(), None);
    assert_eq!(stack.size(), 0);
    assert!(stack.peek().is_none());
}
