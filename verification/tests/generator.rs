use gas_metering_cost::generator::make_wat;

#[test]
fn wat_text_depth_one_exact() {
    let expected = "\n        (module\n            (export \"hello\" (func 0))\n              (func (;0;)\n                (local i32)\n                i32.const 1\n                local.set 0\n                \n            block\n            local.get 0\n            drop\n        \n            br 1\n            end\n        \n                return\n              )\n            )";
    assert_eq!(make_wat(1), expected);
}

#[test]
fn wat_text_depth_two_exact() {
    let head = "\n        (module\n            (export \"hello\" (func 0))\n              (func (;0;)\n                (local i32)\n                i32.const 1\n                local.set 0\n                ";
    let block = "\n            block\n            local.get 0\n            drop\n        ";
    let tail = "\n                return\n              )\n            )";
    let expected = format!(
        "{}{}{}\n            br 2\n            end\n        \n            br 1\n            end\n        {}",
        head, block, block, tail
    );
    assert_eq!(make_wat(2), expected);
}

#[test]
fn wat_text_deterministic() {
    assert_eq!(make_wat(30), make_wat(30));
    assert_eq!(make_wat(200), make_wat(200));
}

#[test]
fn wat_text_structure_scales_with_depth() {
    let text = make_wat(200);
    assert_eq!(text.matches("block").count(), 200);
    assert_eq!(text.matches("end").count(), 200);
    assert_eq!(text.matches("br ").count(), 200);
    assert!(text.contains("br 200"));
    assert!(text.contains("br 1\n"));
    assert_eq!(text.matches("(export \"hello\" (func 0))").count(), 1);
}

#[test]
fn wat_texts_differ_across_depths() {
    assert_ne!(make_wat(1), make_wat(2));
    assert!(make_wat(2).len() > make_wat(1).len());
}
